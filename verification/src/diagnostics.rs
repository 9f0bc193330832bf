//! Local diagnostics: what each capability needs at runtime, what was last
//! attempted, and the text a user copies into a support request.

use vstd::prelude::*;
use vstd::utf8::decode_utf8;
use crate::backend::{boundary_at_most, truncate_to_char_boundary, truncated_bytes, utf8};
use crate::codex::opt_string;
use crate::text::{chars_of, push_char, split_chars, split_on, string_of, string_texts, str_eq, trim, trim_chars, char_texts};

verus! {

/// Whether a character is a control character (`char::is_control`).
pub open spec fn is_control(c: char) -> bool {
    (c as u32) <= 0x1f || (0x7f <= (c as u32) && (c as u32) <= 0x9f)
}

/// A text without its control characters.
pub open spec fn drop_controls(s: Seq<char>) -> Seq<char>
    decreases s.len(),
{
    if s.len() == 0 {
        s
    } else if is_control(s.last()) {
        drop_controls(s.drop_last())
    } else {
        drop_controls(s.drop_last()).push(s.last())
    }
}

/// The first of the texts that is not empty.
pub open spec fn first_nonempty(lines: Seq<Seq<char>>) -> Option<Seq<char>>
    decreases lines.len(),
{
    if lines.len() == 0 {
        None
    } else if lines[0].len() > 0 {
        Some(lines[0])
    } else {
        first_nonempty(lines.drop_first())
    }
}

/// The first non-blank line of an error, trimmed, without control characters.
pub open spec fn failure_line(error: Seq<char>) -> Seq<char> {
    let line = match first_nonempty(split_on(error, '\n').map_values(|l: Seq<char>| trim(l))) {
        Some(l) => l,
        None => "command failed"@,
    };
    drop_controls(line)
}

/// A failure summary: the failure line, cut to 180 bytes at a character
/// boundary and marked with `...` when it is longer.
pub open spec fn failure_summary(error: Seq<char>) -> Seq<char> {
    let line = failure_line(error);
    if utf8(line).len() > 180 {
        decode_utf8(truncated_bytes(line, 180)) + "..."@
    } else {
        line
    }
}

/// Characters a control-free copy of `v`.
fn without_controls(v: &[char]) -> (r: Vec<char>)
    ensures
        r@ == drop_controls(v@),
{
    let mut r: Vec<char> = Vec::new();
    let mut i: usize = 0;
    while i < v.len()
        invariant
            i <= v.len(),
            r@ == drop_controls(v@.subrange(0, i as int)),
        decreases v.len() - i,
    {
        let c = v[i];
        let ghost p = v@.subrange(0, i + 1);
        assert(p.drop_last() =~= v@.subrange(0, i as int));
        let code: u32 = c as u32;
        if !(code <= 0x1f || (0x7f <= code && code <= 0x9f)) {
            r.push(c);
        }
        i = i + 1;
    }
    assert(v@.subrange(0, v@.len() as int) =~= v@);
    r
}

/// A single-line, bounded summary of a failure that is safe to show and to copy.
pub fn sanitize_failure_summary(error: &str) -> (r: String)
    ensures
        r@ == failure_summary(error@),
{
    broadcast use vstd::utf8::encode_utf8_valid_utf8;

    let chars = chars_of(error);
    let pieces = split_chars(&chars, '\n');
    let ghost lines = split_on(error@, '\n').map_values(|l: Seq<char>| trim(l));
    let mut chosen: Option<Vec<char>> = None;
    let mut i: usize = 0;
    assert(lines.skip(0) =~= lines);
    while i < pieces.len()
        invariant
            i <= pieces.len(),
            char_texts(pieces@) == split_on(error@, '\n'),
            lines == split_on(error@, '\n').map_values(|l: Seq<char>| trim(l)),
            chosen is None ==> first_nonempty(lines) == first_nonempty(lines.skip(i as int)),
            chosen is Some ==> first_nonempty(lines) == Some(chosen->0@),
        decreases pieces.len() - i,
    {
        if chosen.is_none() {
            let line = trim_chars(pieces[i].as_slice());
            assert(lines.skip(i as int)[0] == line@);
            assert(lines.skip(i as int).drop_first() =~= lines.skip(i + 1));
            if line.len() > 0 {
                chosen = Some(line);
            }
        }
        i = i + 1;
    }
    let line = match chosen {
        Some(l) => l,
        None => {
            assert(lines.skip(pieces.len() as int).len() == 0);
            chars_of("command failed")
        },
    };
    let clean = without_controls(&line);
    let text = string_of(&clean);
    let ghost line_view = failure_line(error@);
    assert(text@ == line_view);
    if text.as_str().as_bytes().len() > 180 {
        let mut cut = truncate_to_char_boundary(text, 180);
        let ghost before = cut@;
        cut.append("...");
        proof {
            vstd::utf8::encode_utf8_decode_utf8(before);
        }
        cut
    } else {
        text
    }
}

/// A capability that the product supports.
pub const PRODUCT_SUPPORTED: &'static str = "supported";
/// A capability that the product supports with limits.
pub const PRODUCT_DEGRADED: &'static str = "degraded";
/// A capability that the product does not support.
pub const PRODUCT_UNSUPPORTED: &'static str = "unsupported";
/// The runtime has what the capability needs.
pub const RUNTIME_READY: &'static str = "ready";
/// The runtime lacks a command or device that the capability needs.
pub const RUNTIME_MISSING_DEPENDENCY: &'static str = "missing_dependency";
/// The runtime needs a permission before the capability works.
pub const RUNTIME_PERMISSION_NEEDED: &'static str = "permission_needed";
/// The capability failed at runtime.
pub const RUNTIME_FAILED: &'static str = "failed";
/// The runtime state of the capability is not known.
pub const RUNTIME_UNKNOWN: &'static str = "unknown";

/// Whether a text is one of the runtime statuses.
pub open spec fn valid_runtime_status(s: Seq<char>) -> bool {
    s == "ready"@ || s == "missing_dependency"@ || s == "permission_needed"@ || s == "failed"@ || s == "unknown"@
}

/// Whether a status is one of the runtime statuses.
pub fn is_valid_runtime_status(status: &str) -> (r: bool)
    ensures
        r == valid_runtime_status(status@),
{
    str_eq(status, RUNTIME_READY) || str_eq(status, RUNTIME_MISSING_DEPENDENCY) || str_eq(status, RUNTIME_PERMISSION_NEEDED)
        || str_eq(status, RUNTIME_FAILED) || str_eq(status, RUNTIME_UNKNOWN)
}

/// A runtime status with the evidence for it.
#[derive(Debug, Clone)]
pub struct RuntimeEvidence {
    pub status: &'static str,
    pub evidence: Vec<String>,
}

impl RuntimeEvidence {
    /// A ready status with one piece of evidence.
    pub fn ready(evidence: &str) -> (r: RuntimeEvidence)
        ensures
            r.status@ == "ready"@,
            string_texts(r.evidence@) == seq![evidence@],
    {
        let mut v: Vec<String> = Vec::new();
        v.push(String::from_str(evidence));
        assert(string_texts(v@) =~= seq![evidence@]);
        RuntimeEvidence { status: RUNTIME_READY, evidence: v }
    }

    /// A failed status with one piece of evidence.
    pub fn failed(evidence: &str) -> (r: RuntimeEvidence)
        ensures
            r.status@ == "failed"@,
            string_texts(r.evidence@) == seq![evidence@],
    {
        let mut v: Vec<String> = Vec::new();
        v.push(String::from_str(evidence));
        assert(string_texts(v@) =~= seq![evidence@]);
        RuntimeEvidence { status: RUNTIME_FAILED, evidence: v }
    }

    /// An unknown status with one piece of evidence.
    pub fn unknown(evidence: &str) -> (r: RuntimeEvidence)
        ensures
            r.status@ == "unknown"@,
            string_texts(r.evidence@) == seq![evidence@],
    {
        let mut v: Vec<String> = Vec::new();
        v.push(String::from_str(evidence));
        assert(string_texts(v@) =~= seq![evidence@]);
        RuntimeEvidence { status: RUNTIME_UNKNOWN, evidence: v }
    }

    /// The same status with one more piece of evidence.
    pub fn with_evidence(self, evidence: &str) -> (r: RuntimeEvidence)
        ensures
            r.status == self.status,
            string_texts(r.evidence@) == string_texts(self.evidence@).push(evidence@),
    {
        let mut this = self;
        let ghost before = string_texts(this.evidence@);
        this.evidence.push(String::from_str(evidence));
        assert(string_texts(this.evidence@) =~= before.push(evidence@));
        this
    }
}

/// Which of the commands a capability needs are installed, with the evidence.
#[derive(Debug, Clone)]
pub struct CommandChecks {
    pub all_found: bool,
    pub evidence: Vec<String>,
}

impl CommandChecks {
    /// The runtime status of the checks: ready when every command was found.
    pub fn into_runtime(self) -> (r: RuntimeEvidence)
        ensures
            r.status@ == (if self.all_found { "ready"@ } else { "missing_dependency"@ }),
            r.evidence@ == self.evidence@,
    {
        RuntimeEvidence {
            status: if self.all_found { RUNTIME_READY } else { RUNTIME_MISSING_DEPENDENCY },
            evidence: self.evidence,
        }
    }
}

/// The evidence line for one command.
pub open spec fn command_line(command: Seq<char>, found: bool) -> Seq<char> {
    if found {
        "found command: "@ + command
    } else {
        "missing command: "@ + command
    }
}

/// Checks the commands against the ones that are installed; `available`
/// lists the installed commands among those the host probed.
pub fn command_checks(commands: &[&str], available: &[String]) -> (r: CommandChecks)
    ensures
        r.all_found == (forall|i: int| 0 <= i < commands@.len() ==> string_texts(available@).contains(#[trigger] commands@[i]@)),
        r.evidence@.len() == commands@.len(),
        forall|i: int| 0 <= i < commands@.len() ==> (#[trigger] r.evidence@[i])@ == command_line(
            commands@[i]@,
            string_texts(available@).contains(commands@[i]@),
        ),
{
    let mut all_found = true;
    let mut evidence: Vec<String> = Vec::new();
    let mut i: usize = 0;
    while i < commands.len()
        invariant
            i <= commands.len(),
            evidence@.len() == i,
            all_found == (forall|j: int| 0 <= j < i ==> string_texts(available@).contains(#[trigger] commands@[j]@)),
            forall|j: int| 0 <= j < i ==> (#[trigger] evidence@[j])@ == command_line(
                commands@[j]@,
                string_texts(available@).contains(commands@[j]@),
            ),
        decreases commands.len() - i,
    {
        let command = commands[i];
        let mut found = false;
        let mut k: usize = 0;
        while k < available.len()
            invariant
                k <= available.len(),
                found == (exists|m: int| 0 <= m < k && available@[m]@ == command@),
            decreases available.len() - k,
        {
            if str_eq(available[k].as_str(), command) {
                found = true;
            }
            k = k + 1;
        }
        proof {
            if found {
                let m = choose|m: int| 0 <= m < available@.len() && available@[m]@ == command@;
                assert(string_texts(available@)[m] == command@);
            }
            if string_texts(available@).contains(command@) {
                let m = choose|m: int| 0 <= m < string_texts(available@).len() && string_texts(available@)[m] == command@;
                assert(available@[m]@ == command@);
            }
        }
        let line = if found {
            let mut l = String::from_str("found command: ");
            l.append(command);
            l
        } else {
            all_found = false;
            let mut l = String::from_str("missing command: ");
            l.append(command);
            l
        };
        evidence.push(line);
        i = i + 1;
    }
    CommandChecks { all_found, evidence }
}

/// The runtime status of one command.
pub fn command_status(command: &'static str, available: &[String]) -> (r: RuntimeEvidence)
    ensures
        r.status@ == (if string_texts(available@).contains(command@) { "ready"@ } else { "missing_dependency"@ }),
        r.evidence@.len() == 1,
        r.evidence@[0]@ == command_line(command@, string_texts(available@).contains(command@)),
{
    let mut commands: Vec<&str> = Vec::new();
    commands.push(command);
    let checks = command_checks(commands.as_slice(), available);
    assert(commands@[0] == command);
    assert(string_texts(available@).contains(commands@[0]@) == string_texts(available@).contains(command@));
    checks.into_runtime()
}

/// The runtime status of a capability that needs every one of the commands.
pub fn all_commands_status(commands: &[&str], available: &[String]) -> (r: RuntimeEvidence)
    ensures
        r.status@ == (if (forall|i: int| 0 <= i < commands@.len() ==> string_texts(available@).contains(#[trigger] commands@[i]@)) {
            "ready"@
        } else {
            "missing_dependency"@
        }),
        r.evidence@.len() == commands@.len(),
        forall|i: int| 0 <= i < commands@.len() ==> (#[trigger] r.evidence@[i])@ == command_line(
            commands@[i]@,
            string_texts(available@).contains(commands@[i]@),
        ),
{
    command_checks(commands, available).into_runtime()
}

/// The evidence lines for checking a list of commands.
pub open spec fn check_lines(commands: Seq<Seq<char>>, available: Seq<Seq<char>>) -> Seq<Seq<char>> {
    commands.map_values(|c: Seq<char>| command_line(c, available.contains(c)))
}

/// Whether every command is available.
pub open spec fn all_available(commands: Seq<Seq<char>>, available: Seq<Seq<char>>) -> bool {
    forall|i: int| 0 <= i < commands.len() ==> available.contains(#[trigger] commands[i])
}

/// A runtime status with its evidence, as texts.
pub struct EvidenceView {
    pub status: Seq<char>,
    pub evidence: Seq<Seq<char>>,
}

impl View for RuntimeEvidence {
    type V = EvidenceView;

    open spec fn view(&self) -> EvidenceView {
        EvidenceView { status: self.status@, evidence: string_texts(self.evidence@) }
    }
}

/// The status of a capability that needs the commands.
pub open spec fn commands_evidence(commands: Seq<Seq<char>>, available: Seq<Seq<char>>) -> EvidenceView {
    EvidenceView {
        status: if all_available(commands, available) { "ready"@ } else { "missing_dependency"@ },
        evidence: check_lines(commands, available),
    }
}

/// The views of static texts.
pub open spec fn names(v: Seq<&'static str>) -> Seq<Seq<char>> {
    Seq::new(v.len(), |i: int| v[i]@)
}

fn commands_status(commands: &[&'static str], available: &[String]) -> (r: RuntimeEvidence)
    ensures
        r@ == commands_evidence(names(commands@), string_texts(available@)),
{
    let r = all_commands_status(commands, available);
    assert(r@.evidence =~= check_lines(names(commands@), string_texts(available@)));
    proof {
        let avail = string_texts(available@);
        if all_available(names(commands@), avail) {
            assert forall|i: int| 0 <= i < commands@.len() implies avail.contains(#[trigger] commands@[i]@) by {
                assert(names(commands@)[i] == commands@[i]@);
            }
        }
        if forall|i: int| 0 <= i < commands@.len() ==> avail.contains(#[trigger] commands@[i]@) {
            assert forall|i: int| 0 <= i < names(commands@).len() implies avail.contains(#[trigger] names(commands@)[i]) by {
                assert(avail.contains(commands@[i]@));
            }
        }
    }
    r
}

/// The status of webcam capture: the webcam tools and a video device.
pub open spec fn webcam_evidence(available: Seq<Seq<char>>, has_video_device: bool) -> EvidenceView {
    let tools = seq!["v4l2-ctl"@, "ffplay"@, "lsof"@];
    EvidenceView {
        status: if all_available(tools, available) && has_video_device { "ready"@ } else { "missing_dependency"@ },
        evidence: check_lines(tools, available).push(
            if has_video_device { "found device: /dev/video*"@ } else { "missing device: /dev/video*"@ },
        ),
    }
}

/// The status of webcam capture, from the installed commands and whether a
/// video device exists.
pub fn webcam_status(available: &[String], has_video_device: bool) -> (r: RuntimeEvidence)
    ensures
        r@ == webcam_evidence(string_texts(available@), has_video_device),
{
    let mut tools: Vec<&'static str> = Vec::new();
    tools.push("v4l2-ctl");
    tools.push("ffplay");
    tools.push("lsof");
    assert(names(tools@) =~= seq!["v4l2-ctl"@, "ffplay"@, "lsof"@]);
    let checks = commands_status(tools.as_slice(), available);
    let ready = str_eq(checks.status, RUNTIME_READY) && has_video_device;
    let mut evidence = checks.evidence;
    let ghost before = string_texts(evidence@);
    if has_video_device {
        evidence.push(String::from_str("found device: /dev/video*"));
    } else {
        evidence.push(String::from_str("missing device: /dev/video*"));
    }
    proof {
        reveal_strlit("ready");
        reveal_strlit("missing_dependency");
    }
    let r = RuntimeEvidence { status: if ready { RUNTIME_READY } else { RUNTIME_MISSING_DEPENDENCY }, evidence };
    assert(r@.evidence =~= webcam_evidence(string_texts(available@), has_video_device).evidence);
    r
}

/// The status of webcam recording: the recording tools and webcam capture.
pub open spec fn webcam_recording_evidence(available: Seq<Seq<char>>, has_video_device: bool) -> EvidenceView {
    let tools = seq!["gpu-screen-recorder"@, "hyprctl"@, "jq"@];
    let webcam = webcam_evidence(available, has_video_device);
    EvidenceView {
        status: if all_available(tools, available) && webcam.status == "ready"@ { "ready"@ } else { "missing_dependency"@ },
        evidence: check_lines(tools, available) + webcam.evidence,
    }
}

/// The status of webcam recording.
pub fn webcam_recording_status(available: &[String], has_video_device: bool) -> (r: RuntimeEvidence)
    ensures
        r@ == webcam_recording_evidence(string_texts(available@), has_video_device),
{
    let mut tools: Vec<&'static str> = Vec::new();
    tools.push("gpu-screen-recorder");
    tools.push("hyprctl");
    tools.push("jq");
    assert(names(tools@) =~= seq!["gpu-screen-recorder"@, "hyprctl"@, "jq"@]);
    let recording = commands_status(tools.as_slice(), available);
    let webcam = webcam_status(available, has_video_device);
    let ready = str_eq(recording.status, RUNTIME_READY) && str_eq(webcam.status, RUNTIME_READY);
    let mut evidence = recording.evidence;
    let mut more = webcam.evidence;
    let ghost a = string_texts(evidence@);
    let ghost b = string_texts(more@);
    evidence.append(&mut more);
    proof {
        reveal_strlit("ready");
        reveal_strlit("missing_dependency");
    }
    let r = RuntimeEvidence { status: if ready { RUNTIME_READY } else { RUNTIME_MISSING_DEPENDENCY }, evidence };
    assert(r@.evidence =~= a + b);
    r
}

/// When an action was last attempted, succeeded and failed, and why it failed.
#[derive(Debug, Clone)]
pub struct AttemptMetadata {
    pub last_attempt_at: Option<String>,
    pub last_success_at: Option<String>,
    pub last_failure_at: Option<String>,
    pub last_failure_summary: Option<String>,
}

/// Attempt metadata as texts.
pub struct AttemptView {
    pub last_attempt_at: Option<Seq<char>>,
    pub last_success_at: Option<Seq<char>>,
    pub last_failure_at: Option<Seq<char>>,
    pub last_failure_summary: Option<Seq<char>>,
}

impl View for AttemptMetadata {
    type V = AttemptView;

    open spec fn view(&self) -> AttemptView {
        AttemptView {
            last_attempt_at: opt_string(self.last_attempt_at),
            last_success_at: opt_string(self.last_success_at),
            last_failure_at: opt_string(self.last_failure_at),
            last_failure_summary: opt_string(self.last_failure_summary),
        }
    }
}

/// The metadata of an action that was never attempted.
pub open spec fn no_attempt() -> AttemptView {
    AttemptView { last_attempt_at: None, last_success_at: None, last_failure_at: None, last_failure_summary: None }
}

fn copy_opt(o: &Option<String>) -> (r: Option<String>)
    ensures
        opt_string(r) == opt_string(*o),
{
    match o {
        Some(s) => Some(String::from_str(s.as_str())),
        None => None,
    }
}

impl AttemptMetadata {
    /// Metadata with nothing recorded.
    pub fn none() -> (m: AttemptMetadata)
        ensures
            m@ == no_attempt(),
    {
        AttemptMetadata { last_attempt_at: None, last_success_at: None, last_failure_at: None, last_failure_summary: None }
    }

    /// A copy of the metadata.
    pub fn copy(&self) -> (m: AttemptMetadata)
        ensures
            m@ == self@,
    {
        AttemptMetadata {
            last_attempt_at: copy_opt(&self.last_attempt_at),
            last_success_at: copy_opt(&self.last_success_at),
            last_failure_at: copy_opt(&self.last_failure_at),
            last_failure_summary: copy_opt(&self.last_failure_summary),
        }
    }
}

/// The attempt metadata of every action that was attempted.
pub struct AttemptLog {
    entries: Vec<(String, AttemptMetadata)>,
}

/// The metadata of an action in a list of entries whose names are distinct.
pub open spec fn lookup(entries: Seq<(Seq<char>, AttemptView)>, id: Seq<char>) -> AttemptView
    decreases entries.len(),
{
    if entries.len() == 0 {
        no_attempt()
    } else if entries.last().0 == id {
        entries.last().1
    } else {
        lookup(entries.drop_last(), id)
    }
}

/// The entries as texts.
pub open spec fn entry_views(v: Seq<(String, AttemptMetadata)>) -> Seq<(Seq<char>, AttemptView)> {
    Seq::new(v.len(), |i: int| (v[i].0@, v[i].1@))
}

/// What a change of one entry does.
pub enum AttemptChange {
    Attempt(Seq<char>),
    Success(Seq<char>),
    Failure(Seq<char>, Seq<char>),
}

/// The metadata after a change: an attempt or a success sets its time; a
/// failure sets its time and the summary of its error.
pub open spec fn changed(m: AttemptView, c: AttemptChange) -> AttemptView {
    match c {
        AttemptChange::Attempt(at) => AttemptView { last_attempt_at: Some(at), ..m },
        AttemptChange::Success(at) => AttemptView { last_success_at: Some(at), ..m },
        AttemptChange::Failure(at, error) => AttemptView {
            last_failure_at: Some(at),
            last_failure_summary: Some(failure_summary(error)),
            ..m
        },
    }
}

proof fn lemma_lookup_found(e: Seq<(Seq<char>, AttemptView)>, id: Seq<char>, i: int)
    requires
        0 <= i < e.len(),
        e[i].0 == id,
        forall|j: int| 0 <= j < e.len() && j != i ==> e[j].0 != id,
    ensures
        lookup(e, id) == e[i].1,
    decreases e.len(),
{
    if i < e.len() - 1 {
        lemma_lookup_found(e.drop_last(), id, i);
    }
}

proof fn lemma_lookup_absent(e: Seq<(Seq<char>, AttemptView)>, id: Seq<char>)
    requires
        forall|j: int| 0 <= j < e.len() ==> e[j].0 != id,
    ensures
        lookup(e, id) == no_attempt(),
    decreases e.len(),
{
    if e.len() > 0 {
        lemma_lookup_absent(e.drop_last(), id);
    }
}

impl AttemptLog {
    /// The metadata recorded for an action.
    pub closed spec fn get(&self, id: Seq<char>) -> AttemptView {
        lookup(entry_views(self.entries@), id)
    }

    /// No action is recorded twice; this holds of every log.
    #[verifier::type_invariant]
    pub closed spec fn wf(&self) -> bool {
        forall|i: int, j: int| 0 <= i < j < self.entries@.len() ==> self.entries@[i].0@ != self.entries@[j].0@
    }

    /// An empty log.
    pub fn new() -> (l: AttemptLog)
        ensures
            l.wf(),
            forall|id: Seq<char>| l.get(id) == no_attempt(),
    {
        AttemptLog { entries: Vec::new() }
    }

    fn position(&self, id: &str) -> (r: Option<usize>)
        requires
            self.wf(),
        ensures
            r matches Some(i) ==> i < self.entries@.len() && self.entries@[i as int].0@ == id@,
            r is None ==> forall|j: int| 0 <= j < self.entries@.len() ==> self.entries@[j].0@ != id@,
    {
        let mut i: usize = 0;
        while i < self.entries.len()
            invariant
                i <= self.entries.len(),
                forall|j: int| 0 <= j < i ==> self.entries@[j].0@ != id@,
            decreases self.entries.len() - i,
        {
            if str_eq(self.entries[i].0.as_str(), id) {
                return Some(i);
            }
            i = i + 1;
        }
        None
    }

    /// The metadata recorded for an action, or none.
    pub fn attempt_for(&self, id: &str) -> (m: AttemptMetadata)
        ensures
            m@ == self.get(id@),
    {
        proof {
            use_type_invariant(self);
        }
        match self.position(id) {
            Some(i) => {
                proof {
                    lemma_lookup_found(entry_views(self.entries@), id@, i as int);
                }
                self.entries[i].1.copy()
            },
            None => {
                proof {
                    lemma_lookup_absent(entry_views(self.entries@), id@);
                }
                AttemptMetadata::none()
            },
        }
    }

    fn apply(&mut self, id: &str, change: Ghost<AttemptChange>, updated: AttemptMetadata)
        requires
            updated@ == changed(old(self).get(id@), change@),
        ensures
            final(self).wf(),
            final(self).get(id@) == changed(old(self).get(id@), change@),
            forall|other: Seq<char>| other != id@ ==> final(self).get(other) == old(self).get(other),
    {
        proof {
            use_type_invariant(&*self);
        }
        let ghost before = entry_views(self.entries@);
        let ghost old_entries = self.entries@;
        match self.position(id) {
            Some(i) => {
                let mut entries = Vec::new();
                std::mem::swap(&mut entries, &mut self.entries);
                let ghost raw = entries@;
                entries.set(i, (String::from_str(id), updated));
                assert forall|a: int, b: int| 0 <= a < b < entries@.len() implies entries@[a].0@ != entries@[b].0@ by {
                    assert(old_entries[a].0@ != old_entries[b].0@);
                }
                self.entries = entries;
                proof {
                    let after = entry_views(self.entries@);
                    assert(after =~= before.update(i as int, (id@, updated@)));
                    lemma_lookup_found(after, id@, i as int);
                    assert forall|other: Seq<char>| other != id@ implies lookup(after, other) == lookup(before, other) by {
                        if exists|j: int| 0 <= j < before.len() && before[j].0 == other {
                            let j = choose|j: int| 0 <= j < before.len() && before[j].0 == other;
                            lemma_lookup_found(before, other, j);
                            lemma_lookup_found(after, other, j);
                        } else {
                            lemma_lookup_absent(before, other);
                            lemma_lookup_absent(after, other);
                        }
                    }
                }
            },
            None => {
                proof {
                    lemma_lookup_absent(before, id@);
                }
                let mut entries = Vec::new();
                std::mem::swap(&mut entries, &mut self.entries);
                entries.push((String::from_str(id), updated));
                assert forall|a: int, b: int| 0 <= a < b < entries@.len() implies entries@[a].0@ != entries@[b].0@ by {
                    if b < old_entries.len() {
                        assert(old_entries[a].0@ != old_entries[b].0@);
                    }
                }
                self.entries = entries;
                proof {
                    let after = entry_views(self.entries@);
                    assert(after.drop_last() =~= before);
                    assert forall|other: Seq<char>| other != id@ implies lookup(after, other) == lookup(before, other) by {}
                }
            },
        }
    }
}

/// Records that an action was attempted at `now`.
pub fn record_action_attempt(log: &mut AttemptLog, action: &str, now: &str)
    ensures
        final(log).wf(),
        final(log).get(action@) == changed(old(log).get(action@), AttemptChange::Attempt(now@)),
        forall|other: Seq<char>| other != action@ ==> final(log).get(other) == old(log).get(other),
{
    let mut m = log.attempt_for(action);
    m.last_attempt_at = Some(String::from_str(now));
    log.apply(action, Ghost(AttemptChange::Attempt(now@)), m);
}

/// Records that an action succeeded at `now`.
pub fn record_action_success(log: &mut AttemptLog, action: &str, now: &str)
    ensures
        final(log).wf(),
        final(log).get(action@) == changed(old(log).get(action@), AttemptChange::Success(now@)),
        forall|other: Seq<char>| other != action@ ==> final(log).get(other) == old(log).get(other),
{
    let mut m = log.attempt_for(action);
    m.last_success_at = Some(String::from_str(now));
    log.apply(action, Ghost(AttemptChange::Success(now@)), m);
}

/// Records that an action failed at `now`, with a sanitized summary of the error.
pub fn record_action_failure(log: &mut AttemptLog, action: &str, now: &str, error: &str)
    ensures
        final(log).wf(),
        final(log).get(action@) == changed(old(log).get(action@), AttemptChange::Failure(now@, error@)),
        forall|other: Seq<char>| other != action@ ==> final(log).get(other) == old(log).get(other),
{
    let mut m = log.attempt_for(action);
    m.last_failure_at = Some(String::from_str(now));
    m.last_failure_summary = Some(sanitize_failure_summary(error));
    log.apply(action, Ghost(AttemptChange::Failure(now@, error@)), m);
}

/// What diagnostics report about one capability.
#[derive(Debug, Clone)]
pub struct DiagnosticCapability {
    pub id: &'static str,
    pub label: &'static str,
    pub group: &'static str,
    pub product_status: &'static str,
    pub runtime_status: &'static str,
    pub evidence: Vec<String>,
    pub last_attempt_at: Option<String>,
    pub last_success_at: Option<String>,
    pub last_failure_at: Option<String>,
    pub last_failure_summary: Option<String>,
}

/// The capabilities with the text that a user copies.
#[derive(Debug, Clone)]
pub struct DiagnosticsSummary {
    pub copy_text: String,
    pub capabilities: Vec<DiagnosticCapability>,
}

/// A diagnostic capability as texts.
pub struct DiagnosticView {
    pub id: Seq<char>,
    pub label: Seq<char>,
    pub group: Seq<char>,
    pub product_status: Seq<char>,
    pub runtime_status: Seq<char>,
    pub evidence: Seq<Seq<char>>,
    pub attempt: AttemptView,
}

/// The view of a diagnostic capability.
pub open spec fn diagnostic_view(c: DiagnosticCapability) -> DiagnosticView {
    DiagnosticView {
        id: c.id@,
        label: c.label@,
        group: c.group@,
        product_status: c.product_status@,
        runtime_status: c.runtime_status@,
        evidence: string_texts(c.evidence@),
        attempt: AttemptView {
            last_attempt_at: opt_string(c.last_attempt_at),
            last_success_at: opt_string(c.last_success_at),
            last_failure_at: opt_string(c.last_failure_at),
            last_failure_summary: opt_string(c.last_failure_summary),
        },
    }
}

/// A diagnostic capability with its runtime evidence and its recorded attempts.
pub fn capability(
    id: &'static str,
    label: &'static str,
    group: &'static str,
    product_status: &'static str,
    runtime: RuntimeEvidence,
    attempts: &AttemptLog,
) -> (c: DiagnosticCapability)
    ensures
        diagnostic_view(c) == (DiagnosticView {
            id: id@,
            label: label@,
            group: group@,
            product_status: product_status@,
            runtime_status: runtime@.status,
            evidence: runtime@.evidence,
            attempt: attempts.get(id@),
        }),
{
    let attempt = attempts.attempt_for(id);
    DiagnosticCapability {
        id,
        label,
        group,
        product_status,
        runtime_status: runtime.status,
        evidence: runtime.evidence,
        last_attempt_at: attempt.last_attempt_at,
        last_success_at: attempt.last_success_at,
        last_failure_at: attempt.last_failure_at,
        last_failure_summary: attempt.last_failure_summary,
    }
}

/// The lines that one capability adds to the copied summary.
pub open spec fn capability_lines(c: DiagnosticView) -> Seq<Seq<char>> {
    seq!["- "@ + c.label + " ["@ + c.group + "]: runtime="@ + c.runtime_status + ", product="@ + c.product_status]
        + c.evidence.map_values(|e: Seq<char>| "  evidence: "@ + e)
        + (match c.attempt.last_attempt_at { Some(t) => seq!["  lastAttemptAt: "@ + t], None => seq![] })
        + (match c.attempt.last_success_at { Some(t) => seq!["  lastSuccessAt: "@ + t], None => seq![] })
        + (match c.attempt.last_failure_at { Some(t) => seq!["  lastFailureAt: "@ + t], None => seq![] })
        + (match c.attempt.last_failure_summary { Some(t) => seq!["  lastFailureSummary: "@ + t], None => seq![] })
}

/// The lines of the copied summary for capabilities: a title, then every
/// capability that the product does not leave unsupported.
pub open spec fn summary_lines(caps: Seq<DiagnosticView>) -> Seq<Seq<char>>
    decreases caps.len(),
{
    if caps.len() == 0 {
        seq!["TapPad local diagnostics"@]
    } else if caps.last().product_status == "unsupported"@ {
        summary_lines(caps.drop_last())
    } else {
        summary_lines(caps.drop_last()) + capability_lines(caps.last())
    }
}

/// Lines joined with newlines.
pub open spec fn join_lines(lines: Seq<Seq<char>>) -> Seq<char>
    decreases lines.len(),
{
    if lines.len() == 0 {
        seq![]
    } else if lines.len() == 1 {
        lines[0]
    } else {
        join_lines(lines.drop_last()) + "\n"@ + lines.last()
    }
}

/// The views of diagnostic capabilities.
pub open spec fn diagnostic_views(v: Seq<DiagnosticCapability>) -> Seq<DiagnosticView> {
    Seq::new(v.len(), |i: int| diagnostic_view(v[i]))
}

fn add_line(text: &mut String, line: &str, lines: Ghost<Seq<Seq<char>>>)
    requires
        lines@.len() >= 1,
        old(text)@ == join_lines(lines@),
    ensures
        final(text)@ == join_lines(lines@.push(line@)),
{
    text.append("\n");
    text.append(line);
    assert(lines@.push(line@).drop_last() =~= lines@);
}

/// The text that a user copies: one line per capability, with its evidence
/// and attempts, leaving out the capabilities that the product does not support.
pub fn copy_summary(capabilities: &[DiagnosticCapability]) -> (r: String)
    ensures
        r@ == join_lines(summary_lines(diagnostic_views(capabilities@))),
{
    let mut text = String::from_str("TapPad local diagnostics");
    let ghost mut lines: Seq<Seq<char>> = seq!["TapPad local diagnostics"@];
    let mut i: usize = 0;
    while i < capabilities.len()
        invariant
            i <= capabilities@.len(),
            lines.len() >= 1,
            lines == summary_lines(diagnostic_views(capabilities@.subrange(0, i as int))),
            text@ == join_lines(lines),
        decreases capabilities@.len() - i,
    {
        let c = &capabilities[i];
        let ghost views = diagnostic_views(capabilities@.subrange(0, i + 1));
        assert(views.drop_last() =~= diagnostic_views(capabilities@.subrange(0, i as int)));
        assert(views.last() == diagnostic_view(*c));
        if !str_eq(c.product_status, PRODUCT_UNSUPPORTED) {
            let ghost start = lines;
            let mut head = String::from_str("- ");
            head.append(c.label);
            head.append(" [");
            head.append(c.group);
            head.append("]: runtime=");
            head.append(c.runtime_status);
            head.append(", product=");
            head.append(c.product_status);
            add_line(&mut text, head.as_str(), Ghost(lines));
            proof {
                lines = lines.push(head@);
            }
            let mut k: usize = 0;
            while k < c.evidence.len()
                invariant
                    k <= c.evidence@.len(),
                    lines.len() >= 1,
                    lines == start + seq![head@] + string_texts(c.evidence@).subrange(0, k as int).map_values(
                        |e: Seq<char>| "  evidence: "@ + e,
                    ),
                    text@ == join_lines(lines),
                decreases c.evidence@.len() - k,
            {
                let mut line = String::from_str("  evidence: ");
                line.append(c.evidence[k].as_str());
                add_line(&mut text, line.as_str(), Ghost(lines));
                proof {
                    let ghost prev = lines;
                    lines = lines.push(line@);
                    assert(string_texts(c.evidence@).subrange(0, k + 1).map_values(|e: Seq<char>| "  evidence: "@ + e)
                        =~= string_texts(c.evidence@).subrange(0, k as int).map_values(|e: Seq<char>| "  evidence: "@ + e).push(line@));
                    assert(lines =~= start + seq![head@] + string_texts(c.evidence@).subrange(0, k + 1).map_values(
                        |e: Seq<char>| "  evidence: "@ + e,
                    ));
                }
                k = k + 1;
            }
            assert(string_texts(c.evidence@).subrange(0, c.evidence@.len() as int) =~= string_texts(c.evidence@));
            let ghost with_evidence = lines;
            match &c.last_attempt_at {
                Some(at) => {
                    let mut line = String::from_str("  lastAttemptAt: ");
                    line.append(at.as_str());
                    add_line(&mut text, line.as_str(), Ghost(lines));
                    proof {
                        lines = lines.push(line@);
                    }
                },
                None => {},
            }
            let ghost with_attempt = lines;
            match &c.last_success_at {
                Some(at) => {
                    let mut line = String::from_str("  lastSuccessAt: ");
                    line.append(at.as_str());
                    add_line(&mut text, line.as_str(), Ghost(lines));
                    proof {
                        lines = lines.push(line@);
                    }
                },
                None => {},
            }
            let ghost with_success = lines;
            match &c.last_failure_at {
                Some(at) => {
                    let mut line = String::from_str("  lastFailureAt: ");
                    line.append(at.as_str());
                    add_line(&mut text, line.as_str(), Ghost(lines));
                    proof {
                        lines = lines.push(line@);
                    }
                },
                None => {},
            }
            let ghost with_failure = lines;
            match &c.last_failure_summary {
                Some(summary) => {
                    let mut line = String::from_str("  lastFailureSummary: ");
                    line.append(summary.as_str());
                    add_line(&mut text, line.as_str(), Ghost(lines));
                    proof {
                        lines = lines.push(line@);
                    }
                },
                None => {},
            }
            proof {
                assert(lines =~= start + capability_lines(diagnostic_view(*c)));
            }
        }
        i = i + 1;
    }
    assert(capabilities@.subrange(0, capabilities@.len() as int) =~= capabilities@);
    text
}

/// Whether the input device could be opened, with a sanitized reason when not.
pub fn input_device_probe(opened: Result<(), String>) -> (r: (bool, Option<String>))
    ensures
        opened is Ok ==> r.0 && r.1 is None,
        opened matches Err(e) ==> !r.0 && opt_string(r.1) == Some(failure_summary(e@)),
{
    match opened {
        Ok(()) => (true, None),
        Err(e) => (false, Some(sanitize_failure_summary(e.as_str()))),
    }
}

/// One piece of evidence with a status.
pub open spec fn one(status: Seq<char>, evidence: Seq<char>) -> EvidenceView {
    EvidenceView { status, evidence: seq![evidence] }
}

/// A diagnostic row of the Linux host.
pub open spec fn row(id: Seq<char>, label: Seq<char>, group: Seq<char>, product: Seq<char>, ev: EvidenceView, attempts: AttemptLog) -> DiagnosticView {
    DiagnosticView {
        id,
        label,
        group,
        product_status: product,
        runtime_status: ev.status,
        evidence: ev.evidence,
        attempt: attempts.get(id),
    }
}

/// The diagnostics of the Linux host, capability by capability, from the
/// settings, the server and input device state, the installed commands, the
/// video device, and the recorded attempts.
pub open spec fn linux_rows(
    bind_host: Seq<char>,
    port: u16,
    token: Seq<char>,
    launch_at_login: bool,
    lan_host: Option<[u8; 4]>,
    backend_running: bool,
    backend_reason: Option<Seq<char>>,
    input_ready: bool,
    input_error: Option<Seq<char>>,
    available: Seq<Seq<char>>,
    has_video_device: bool,
    attempts: AttemptLog,
) -> Seq<DiagnosticView> {
    let input_ev = if input_ready {
        one("ready"@, "InputDevice::new() succeeded"@)
    } else {
        one("failed"@, match input_error { Some(e) => e, None => "InputDevice::new() failed"@ })
    };
    let typing_ev = EvidenceView {
        status: input_ev.status,
        evidence: input_ev.evidence.push("Linux direct typing is ASCII-oriented; paste covers richer text"@),
    };
    let lan_ev = match lan_host {
        Some(a) => one("ready"@, "LAN IPv4 discovered: "@ + crate::settings::ipv4_text(a)),
        None => one("unknown"@, "no non-loopback LAN IPv4 discovered"@),
    };
    let server_ev = if backend_running {
        one("ready"@, "backend server listening on "@ + bind_host + ":"@ + crate::text::decimal(port as nat))
    } else {
        one("failed"@, match backend_reason { Some(r) => r, None => "backend server is not running"@ })
    };
    let token_ev = if trim(token).len() == 0 {
        one("failed"@, "pairing token is empty"@)
    } else {
        one("ready"@, "pairing token is configured"@)
    };
    seq![
        row("backend_server"@, "Backend server"@, "Pairing and server"@, "supported"@, server_ev, attempts),
        row("lan_pairing_url"@, "LAN pairing URL"@, "Pairing and server"@, "supported"@, lan_ev, attempts),
        row("token_gated_websocket"@, "Token-gated WebSocket"@, "Pairing and server"@, "supported"@, token_ev, attempts),
        row("pointer_move"@, "Pointer move"@, "Core input"@, "supported"@, input_ev, attempts),
        row("click"@, "Click"@, "Core input"@, "supported"@, input_ev, attempts),
        row("scroll"@, "Scroll"@, "Core input"@, "supported"@, input_ev, attempts),
        row("keyboard_key"@, "Keyboard key"@, "Core input"@, "supported"@, input_ev, attempts),
        row("type_text"@, "Type text"@, "Core input"@, "degraded"@, typing_ev, attempts),
        row("paste_text"@, "Paste text"@, "Text transfer"@, "supported"@, commands_evidence(seq!["wl-copy"@], available), attempts),
        row("screenshot"@, "Screenshot"@, "Desktop actions"@, "supported"@, commands_evidence(seq!["omarchy"@], available), attempts),
        row("screenrecord.screen"@, "Screen recording"@, "Desktop actions"@, "supported"@, commands_evidence(seq!["gpu-screen-recorder"@, "hyprctl"@, "jq"@], available), attempts),
        row("screenrecord.window"@, "Window recording"@, "Desktop actions"@, "supported"@, commands_evidence(seq!["gpu-screen-recorder"@, "hyprctl"@, "jq"@], available), attempts),
        row("screenrecord.screen.audio"@, "Screen recording with audio"@, "Desktop actions"@, "supported"@, commands_evidence(seq!["gpu-screen-recorder"@, "hyprctl"@, "jq"@], available), attempts),
        row("screenrecord.stop"@, "Stop recording"@, "Desktop actions"@, "supported"@, commands_evidence(seq!["omarchy"@, "gpu-screen-recorder"@, "ffmpeg"@, "ffprobe"@, "waybar"@, "notify-send"@], available), attempts),
        row("open_recordings_folder"@, "Open recordings folder"@, "Desktop actions"@, "supported"@, commands_evidence(seq!["xdg-open"@], available), attempts),
        row("close_window"@, "Close window"@, "Desktop actions"@, "supported"@, commands_evidence(seq!["hyprctl"@], available), attempts),
        row("app_launcher"@, "App launcher"@, "Desktop actions"@, "supported"@, commands_evidence(seq!["walker"@], available), attempts),
        row("lock_screen"@, "Lock screen"@, "Desktop actions"@, "supported"@, commands_evidence(seq!["omarchy"@], available), attempts),
        row("media.prev"@, "Previous media"@, "Desktop actions"@, "supported"@, commands_evidence(seq!["playerctl"@], available), attempts),
        row("media.play_pause"@, "Play/pause media"@, "Desktop actions"@, "supported"@, commands_evidence(seq!["playerctl"@], available), attempts),
        row("media.next"@, "Next media"@, "Desktop actions"@, "supported"@, commands_evidence(seq!["playerctl"@], available), attempts),
        row("media.volume_down"@, "Volume down"@, "Desktop actions"@, "supported"@, commands_evidence(seq!["wpctl"@], available), attempts),
        row("media.mute"@, "Mute volume"@, "Desktop actions"@, "supported"@, commands_evidence(seq!["wpctl"@], available), attempts),
        row("media.volume_up"@, "Volume up"@, "Desktop actions"@, "supported"@, commands_evidence(seq!["wpctl"@], available), attempts),
        row("screenrecord.screen.webcam"@, "Webcam recording"@, "Desktop actions"@, "supported"@, webcam_recording_evidence(available, has_video_device), attempts),
        row("tray_availability"@, "Tray availability"@, "Host surface runtime"@, "supported"@, one("unknown"@, "tray availability is reported through runtime logs"@), attempts),
        row("launch_at_login"@, "Launch at login"@, "Host surface runtime"@, "supported"@, one("ready"@, if launch_at_login { "launch at login is enabled"@ } else { "launch at login is disabled"@ }), attempts),
        row("settings_persistence"@, "Settings persistence"@, "Host surface runtime"@, "supported"@, one("ready"@, "settings loaded from the app data directory"@), attempts),
        row("unsupported_placeholder"@, "Unsupported placeholder"@, "Hidden"@, "unsupported"@, one("unknown"@, "hidden from normal diagnostics"@), attempts)
    ]
}

impl RuntimeEvidence {
    fn clone_evidence(&self) -> (r: RuntimeEvidence)
        ensures
            r@ == self@,
    {
        let mut evidence: Vec<String> = Vec::new();
        let mut i: usize = 0;
        while i < self.evidence.len()
            invariant
                i <= self.evidence@.len(),
                string_texts(evidence@) == string_texts(self.evidence@).subrange(0, i as int),
            decreases self.evidence@.len() - i,
        {
            let ghost before = string_texts(evidence@);
            evidence.push(String::from_str(self.evidence[i].as_str()));
            assert(string_texts(evidence@) =~= before.push(self.evidence@[i as int]@));
            i = i + 1;
        }
        assert(string_texts(self.evidence@).subrange(0, self.evidence@.len() as int) =~= string_texts(self.evidence@));
        RuntimeEvidence { status: self.status, evidence }
    }
}

/// The diagnostics of the Linux host.
pub fn linux_capabilities(
    settings: &crate::settings::RuntimeSettings,
    backend_running: bool,
    backend_reason: Option<&str>,
    input_ready: bool,
    input_error: Option<&str>,
    available: &[String],
    has_video_device: bool,
    attempts: &AttemptLog,
) -> (r: Vec<DiagnosticCapability>)
    ensures
        diagnostic_views(r@) == linux_rows(
            settings.bind_host@,
            settings.port,
            settings.token@,
            settings.launch_at_login,
            settings.lan_host,
            backend_running,
            crate::actions::opt_str(backend_reason),
            input_ready,
            crate::actions::opt_str(input_error),
            string_texts(available@),
            has_video_device,
            *attempts,
        ),
{
    let ghost spec = linux_rows(
        settings.bind_host@,
        settings.port,
        settings.token@,
        settings.launch_at_login,
        settings.lan_host,
        backend_running,
        crate::actions::opt_str(backend_reason),
        input_ready,
        crate::actions::opt_str(input_error),
        string_texts(available@),
        has_video_device,
        *attempts,
    );
    let input_status = if input_ready {
        RuntimeEvidence::ready("InputDevice::new() succeeded")
    } else {
        match input_error {
            Some(e) => RuntimeEvidence::failed(e),
            None => RuntimeEvidence::failed("InputDevice::new() failed"),
        }
    };
    let lan_status = match settings.lan_host {
        Some(address) => {
            let mut text = String::from_str("LAN IPv4 discovered: ");
            let dotted = crate::settings::ipv4_string(address);
            text.append(dotted.as_str());
            RuntimeEvidence::ready(text.as_str())
        },
        None => RuntimeEvidence::unknown("no non-loopback LAN IPv4 discovered"),
    };
    let server_status = if backend_running {
        let mut text = String::from_str("backend server listening on ");
        text.append(settings.bind_host.as_str());
        text.append(":");
        let digits = crate::text::decimal_string(settings.port as u64);
        text.append(digits.as_str());
        RuntimeEvidence::ready(text.as_str())
    } else {
        match backend_reason {
            Some(reason) => RuntimeEvidence::failed(reason),
            None => RuntimeEvidence::failed("backend server is not running"),
        }
    };
    let token_chars = chars_of(settings.token.as_str());
    let token_trimmed = trim_chars(&token_chars);
    let token_status = if token_trimmed.len() == 0 {
        RuntimeEvidence::failed("pairing token is empty")
    } else {
        RuntimeEvidence::ready("pairing token is configured")
    };
    let mut rows: Vec<DiagnosticCapability> = Vec::new();
    let ev = server_status.clone_evidence();
    rows.push(capability("backend_server", "Backend server", "Pairing and server", PRODUCT_SUPPORTED, ev, attempts));
    assert(diagnostic_views(rows@)[0] == spec[0]);
    let ev = lan_status.clone_evidence();
    rows.push(capability("lan_pairing_url", "LAN pairing URL", "Pairing and server", PRODUCT_SUPPORTED, ev, attempts));
    assert(diagnostic_views(rows@)[1] == spec[1]);
    let ev = token_status;
    rows.push(capability("token_gated_websocket", "Token-gated WebSocket", "Pairing and server", PRODUCT_SUPPORTED, ev, attempts));
    assert(diagnostic_views(rows@)[2] == spec[2]);
    let ev = input_status.clone_evidence();
    rows.push(capability("pointer_move", "Pointer move", "Core input", PRODUCT_SUPPORTED, ev, attempts));
    assert(diagnostic_views(rows@)[3] == spec[3]);
    let ev = input_status.clone_evidence();
    rows.push(capability("click", "Click", "Core input", PRODUCT_SUPPORTED, ev, attempts));
    assert(diagnostic_views(rows@)[4] == spec[4]);
    let ev = input_status.clone_evidence();
    rows.push(capability("scroll", "Scroll", "Core input", PRODUCT_SUPPORTED, ev, attempts));
    assert(diagnostic_views(rows@)[5] == spec[5]);
    let ev = input_status.clone_evidence();
    rows.push(capability("keyboard_key", "Keyboard key", "Core input", PRODUCT_SUPPORTED, ev, attempts));
    assert(diagnostic_views(rows@)[6] == spec[6]);
    let ev = input_status.clone_evidence().with_evidence("Linux direct typing is ASCII-oriented; paste covers richer text");
    rows.push(capability("type_text", "Type text", "Core input", PRODUCT_DEGRADED, ev, attempts));
    assert(diagnostic_views(rows@)[7] == spec[7]);
    let ev = {
        let mut tools: Vec<&'static str> = Vec::new();
        tools.push("wl-copy");
        assert(names(tools@) =~= seq!["wl-copy"@]);
        commands_status(tools.as_slice(), available)
    };
    rows.push(capability("paste_text", "Paste text", "Text transfer", PRODUCT_SUPPORTED, ev, attempts));
    assert(diagnostic_views(rows@)[8] == spec[8]);
    let ev = {
        let mut tools: Vec<&'static str> = Vec::new();
        tools.push("omarchy");
        assert(names(tools@) =~= seq!["omarchy"@]);
        commands_status(tools.as_slice(), available)
    };
    rows.push(capability("screenshot", "Screenshot", "Desktop actions", PRODUCT_SUPPORTED, ev, attempts));
    assert(diagnostic_views(rows@)[9] == spec[9]);
    let ev = {
        let mut tools: Vec<&'static str> = Vec::new();
        tools.push("gpu-screen-recorder");
        tools.push("hyprctl");
        tools.push("jq");
        assert(names(tools@) =~= seq!["gpu-screen-recorder"@, "hyprctl"@, "jq"@]);
        commands_status(tools.as_slice(), available)
    };
    rows.push(capability("screenrecord.screen", "Screen recording", "Desktop actions", PRODUCT_SUPPORTED, ev, attempts));
    assert(diagnostic_views(rows@)[10] == spec[10]);
    let ev = {
        let mut tools: Vec<&'static str> = Vec::new();
        tools.push("gpu-screen-recorder");
        tools.push("hyprctl");
        tools.push("jq");
        assert(names(tools@) =~= seq!["gpu-screen-recorder"@, "hyprctl"@, "jq"@]);
        commands_status(tools.as_slice(), available)
    };
    rows.push(capability("screenrecord.window", "Window recording", "Desktop actions", PRODUCT_SUPPORTED, ev, attempts));
    assert(diagnostic_views(rows@)[11] == spec[11]);
    let ev = {
        let mut tools: Vec<&'static str> = Vec::new();
        tools.push("gpu-screen-recorder");
        tools.push("hyprctl");
        tools.push("jq");
        assert(names(tools@) =~= seq!["gpu-screen-recorder"@, "hyprctl"@, "jq"@]);
        commands_status(tools.as_slice(), available)
    };
    rows.push(capability("screenrecord.screen.audio", "Screen recording with audio", "Desktop actions", PRODUCT_SUPPORTED, ev, attempts));
    assert(diagnostic_views(rows@)[12] == spec[12]);
    let ev = {
        let mut tools: Vec<&'static str> = Vec::new();
        tools.push("omarchy");
        tools.push("gpu-screen-recorder");
        tools.push("ffmpeg");
        tools.push("ffprobe");
        tools.push("waybar");
        tools.push("notify-send");
        assert(names(tools@) =~= seq!["omarchy"@, "gpu-screen-recorder"@, "ffmpeg"@, "ffprobe"@, "waybar"@, "notify-send"@]);
        commands_status(tools.as_slice(), available)
    };
    rows.push(capability("screenrecord.stop", "Stop recording", "Desktop actions", PRODUCT_SUPPORTED, ev, attempts));
    assert(diagnostic_views(rows@)[13] == spec[13]);
    let ev = {
        let mut tools: Vec<&'static str> = Vec::new();
        tools.push("xdg-open");
        assert(names(tools@) =~= seq!["xdg-open"@]);
        commands_status(tools.as_slice(), available)
    };
    rows.push(capability("open_recordings_folder", "Open recordings folder", "Desktop actions", PRODUCT_SUPPORTED, ev, attempts));
    assert(diagnostic_views(rows@)[14] == spec[14]);
    let ev = {
        let mut tools: Vec<&'static str> = Vec::new();
        tools.push("hyprctl");
        assert(names(tools@) =~= seq!["hyprctl"@]);
        commands_status(tools.as_slice(), available)
    };
    rows.push(capability("close_window", "Close window", "Desktop actions", PRODUCT_SUPPORTED, ev, attempts));
    assert(diagnostic_views(rows@)[15] == spec[15]);
    let ev = {
        let mut tools: Vec<&'static str> = Vec::new();
        tools.push("walker");
        assert(names(tools@) =~= seq!["walker"@]);
        commands_status(tools.as_slice(), available)
    };
    rows.push(capability("app_launcher", "App launcher", "Desktop actions", PRODUCT_SUPPORTED, ev, attempts));
    assert(diagnostic_views(rows@)[16] == spec[16]);
    let ev = {
        let mut tools: Vec<&'static str> = Vec::new();
        tools.push("omarchy");
        assert(names(tools@) =~= seq!["omarchy"@]);
        commands_status(tools.as_slice(), available)
    };
    rows.push(capability("lock_screen", "Lock screen", "Desktop actions", PRODUCT_SUPPORTED, ev, attempts));
    assert(diagnostic_views(rows@)[17] == spec[17]);
    let ev = {
        let mut tools: Vec<&'static str> = Vec::new();
        tools.push("playerctl");
        assert(names(tools@) =~= seq!["playerctl"@]);
        commands_status(tools.as_slice(), available)
    };
    rows.push(capability("media.prev", "Previous media", "Desktop actions", PRODUCT_SUPPORTED, ev, attempts));
    assert(diagnostic_views(rows@)[18] == spec[18]);
    let ev = {
        let mut tools: Vec<&'static str> = Vec::new();
        tools.push("playerctl");
        assert(names(tools@) =~= seq!["playerctl"@]);
        commands_status(tools.as_slice(), available)
    };
    rows.push(capability("media.play_pause", "Play/pause media", "Desktop actions", PRODUCT_SUPPORTED, ev, attempts));
    assert(diagnostic_views(rows@)[19] == spec[19]);
    let ev = {
        let mut tools: Vec<&'static str> = Vec::new();
        tools.push("playerctl");
        assert(names(tools@) =~= seq!["playerctl"@]);
        commands_status(tools.as_slice(), available)
    };
    rows.push(capability("media.next", "Next media", "Desktop actions", PRODUCT_SUPPORTED, ev, attempts));
    assert(diagnostic_views(rows@)[20] == spec[20]);
    let ev = {
        let mut tools: Vec<&'static str> = Vec::new();
        tools.push("wpctl");
        assert(names(tools@) =~= seq!["wpctl"@]);
        commands_status(tools.as_slice(), available)
    };
    rows.push(capability("media.volume_down", "Volume down", "Desktop actions", PRODUCT_SUPPORTED, ev, attempts));
    assert(diagnostic_views(rows@)[21] == spec[21]);
    let ev = {
        let mut tools: Vec<&'static str> = Vec::new();
        tools.push("wpctl");
        assert(names(tools@) =~= seq!["wpctl"@]);
        commands_status(tools.as_slice(), available)
    };
    rows.push(capability("media.mute", "Mute volume", "Desktop actions", PRODUCT_SUPPORTED, ev, attempts));
    assert(diagnostic_views(rows@)[22] == spec[22]);
    let ev = {
        let mut tools: Vec<&'static str> = Vec::new();
        tools.push("wpctl");
        assert(names(tools@) =~= seq!["wpctl"@]);
        commands_status(tools.as_slice(), available)
    };
    rows.push(capability("media.volume_up", "Volume up", "Desktop actions", PRODUCT_SUPPORTED, ev, attempts));
    assert(diagnostic_views(rows@)[23] == spec[23]);
    let ev = webcam_recording_status(available, has_video_device);
    rows.push(capability("screenrecord.screen.webcam", "Webcam recording", "Desktop actions", PRODUCT_SUPPORTED, ev, attempts));
    assert(diagnostic_views(rows@)[24] == spec[24]);
    let ev = RuntimeEvidence::unknown("tray availability is reported through runtime logs");
    rows.push(capability("tray_availability", "Tray availability", "Host surface runtime", PRODUCT_SUPPORTED, ev, attempts));
    assert(diagnostic_views(rows@)[25] == spec[25]);
    let ev = if settings.launch_at_login { RuntimeEvidence::ready("launch at login is enabled") } else { RuntimeEvidence::ready("launch at login is disabled") };
    rows.push(capability("launch_at_login", "Launch at login", "Host surface runtime", PRODUCT_SUPPORTED, ev, attempts));
    assert(diagnostic_views(rows@)[26] == spec[26]);
    let ev = RuntimeEvidence::ready("settings loaded from the app data directory");
    rows.push(capability("settings_persistence", "Settings persistence", "Host surface runtime", PRODUCT_SUPPORTED, ev, attempts));
    assert(diagnostic_views(rows@)[27] == spec[27]);
    let ev = RuntimeEvidence::unknown("hidden from normal diagnostics");
    rows.push(capability("unsupported_placeholder", "Unsupported placeholder", "Hidden", PRODUCT_UNSUPPORTED, ev, attempts));
    assert(diagnostic_views(rows@)[28] == spec[28]);
    assert(diagnostic_views(rows@) =~= spec);
    rows
}

/// The diagnostics of a host: the Linux rows on Linux, none elsewhere.
pub fn diagnostics_capabilities(
    platform: crate::actions::Platform,
    settings: &crate::settings::RuntimeSettings,
    backend_running: bool,
    backend_reason: Option<&str>,
    input_ready: bool,
    input_error: Option<&str>,
    available: &[String],
    has_video_device: bool,
    attempts: &AttemptLog,
) -> (r: Vec<DiagnosticCapability>)
    ensures
        platform is Linux ==> diagnostic_views(r@) == linux_rows(
            settings.bind_host@,
            settings.port,
            settings.token@,
            settings.launch_at_login,
            settings.lan_host,
            backend_running,
            crate::actions::opt_str(backend_reason),
            input_ready,
            crate::actions::opt_str(input_error),
            string_texts(available@),
            has_video_device,
            *attempts,
        ),
        !(platform is Linux) ==> r@.len() == 0,
{
    match platform {
        crate::actions::Platform::Linux => linux_capabilities(
            settings,
            backend_running,
            backend_reason,
            input_ready,
            input_error,
            available,
            has_video_device,
            attempts,
        ),
        _ => Vec::new(),
    }
}

/// The diagnostics of a host with the text that a user copies of them.
pub fn diagnostics_summary(
    platform: crate::actions::Platform,
    settings: &crate::settings::RuntimeSettings,
    backend_running: bool,
    backend_reason: Option<&str>,
    input_ready: bool,
    input_error: Option<&str>,
    available: &[String],
    has_video_device: bool,
    attempts: &AttemptLog,
) -> (r: DiagnosticsSummary)
    ensures
        platform is Linux ==> diagnostic_views(r.capabilities@) == linux_rows(
            settings.bind_host@,
            settings.port,
            settings.token@,
            settings.launch_at_login,
            settings.lan_host,
            backend_running,
            crate::actions::opt_str(backend_reason),
            input_ready,
            crate::actions::opt_str(input_error),
            string_texts(available@),
            has_video_device,
            *attempts,
        ),
        !(platform is Linux) ==> r.capabilities@.len() == 0,
        r.copy_text@ == join_lines(summary_lines(diagnostic_views(r.capabilities@))),
{
    let capabilities = diagnostics_capabilities(
        platform,
        settings,
        backend_running,
        backend_reason,
        input_ready,
        input_error,
        available,
        has_video_device,
        attempts,
    );
    let copy_text = copy_summary(capabilities.as_slice());
    DiagnosticsSummary { copy_text, capabilities }
}

} // verus!
