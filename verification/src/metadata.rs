//! Reading the default app-scoped binding of a Codex command from the
//! command registry that the Codex bundle ships.

use vstd::prelude::*;
use crate::text::{chars_of, string_of};

verus! {

/// Why the default binding of a command could not be read.
#[derive(Debug, Clone, PartialEq, Eq)]
pub enum MetadataError {
    Unreadable(String),
    Invalid(String),
    CommandMissing,
    CommandAmbiguous,
    ScopeMismatch,
    DefaultBindingMissing,
    DefaultBindingAmbiguous,
}

/// Whether `pat` occurs in `s` at `i`.
pub open spec fn occurs_at(s: Seq<char>, pat: Seq<char>, i: int) -> bool {
    0 <= i && i + pat.len() <= s.len() && s.subrange(i, i + pat.len()) == pat
}

/// The first place at or after `i` where `pat` occurs in `s`.
pub open spec fn find_from(s: Seq<char>, pat: Seq<char>, i: int) -> Option<int>
    decreases s.len() + 1 - i,
{
    if i < 0 || i + pat.len() > s.len() {
        None
    } else if occurs_at(s, pat, i) {
        Some(i)
    } else {
        find_from(s, pat, i + 1)
    }
}

/// The first place where `pat` occurs in `s` (`str::find`).
pub open spec fn find(s: Seq<char>, pat: Seq<char>) -> Option<int> {
    find_from(s, pat, 0)
}

/// A place that `find_from` reports is an occurrence at or after `i`.
pub proof fn lemma_find_from(s: Seq<char>, pat: Seq<char>, i: int)
    ensures
        find_from(s, pat, i) matches Some(p) ==> i <= p && occurs_at(s, pat, p),
    decreases s.len() + 1 - i,
{
    if !(i < 0 || i + pat.len() > s.len()) && !occurs_at(s, pat, i) {
        lemma_find_from(s, pat, i + 1);
    }
}

/// The first place at or after `from` where `pat` occurs.
pub fn find_chars(s: &[char], pat: &[char], from: usize) -> (r: Option<usize>)
    ensures
        match r {
            Some(p) => find_from(s@, pat@, from as int) == Some(p as int),
            None => find_from(s@, pat@, from as int) is None,
        },
{
    if pat.len() > s.len() {
        return None;
    }
    let last: usize = s.len() - pat.len();
    let mut i: usize = from;
    while i <= last
        invariant
            last == s@.len() - pat@.len(),
            from <= i,
            find_from(s@, pat@, from as int) == find_from(s@, pat@, i as int),
        decreases last + 1 - i,
    {
        let mut k: usize = 0;
        let mut same = true;
        while same && k < pat.len()
            invariant
                k <= pat@.len(),
                i <= last,
                last == s@.len() - pat@.len(),
                s@.len() == s.len(),
                same == (forall|m: int| 0 <= m < k ==> s@[i + m] == pat@[m]),
            decreases pat@.len() - k,
        {
            if s[i + k] != pat[k] {
                same = false;
            }
            k = k + 1;
        }
        if same {
            assert(s@.subrange(i as int, i + pat@.len()) =~= pat@);
            return Some(i);
        }
        proof {
            if occurs_at(s@, pat@, i as int) {
                let m = (k - 1) as int;
                assert(s@.subrange(i as int, i + pat@.len())[m] == s@[i + m]);
            }
        }
        if i == last {
            assert(find_from(s@, pat@, i + 1) is None);
            return None;
        }
        i = i + 1;
    }
    None
}

/// Whether a character opens a quoted JavaScript string.
pub open spec fn is_quote(c: char) -> bool {
    c == '`' || c == '\'' || c == '"'
}

/// The quoted text right after the first occurrence of `marker`.
pub open spec fn quoted_field_spec(source: Seq<char>, marker: Seq<char>) -> Option<Seq<char>> {
    match find(source, marker) {
        None => None,
        Some(i) => {
            let value = source.subrange(i + marker.len(), source.len() as int);
            if value.len() == 0 || !is_quote(value[0]) {
                None
            } else {
                let rest = value.drop_first();
                match find(rest, seq![value[0]]) {
                    None => None,
                    Some(e) => Some(rest.subrange(0, e)),
                }
            }
        }
    }
}

/// The quoted text right after the first occurrence of `marker`.
pub fn quoted_field(source: &[char], marker: &[char]) -> (r: Option<Vec<char>>)
    ensures
        match r {
            Some(v) => quoted_field_spec(source@, marker@) == Some(v@),
            None => quoted_field_spec(source@, marker@) is None,
        },
{
    let i = match find_chars(source, marker, 0) {
        None => {
            return None;
        },
        Some(i) => i,
    };
    proof {
        lemma_find_from(source@, marker@, 0);
    }
    assert(occurs_at(source@, marker@, i as int));
    let n = source.len();
    let m = marker.len();
    assert(i + m <= n);
    let start = i + m;
    if start >= source.len() {
        return None;
    }
    let quote = source[start];
    if !(quote == '`' || quote == '\'' || quote == '"') {
        return None;
    }
    let rest = copy_range(source, start + 1, source.len());
    let ghost value = source@.subrange(start as int, source@.len() as int);
    assert(rest@ =~= value.drop_first());
    let mut q: Vec<char> = Vec::new();
    q.push(quote);
    assert(q@ =~= seq![value[0]]);
    match find_chars(&rest, &q, 0) {
        None => None,
        Some(e) => {
            proof {
                lemma_find_from(rest@, q@, 0);
            }
            Some(copy_range(&rest, 0, e))
        },
    }
}

/// The characters of `s` from `from` to `to`.
pub fn copy_range(s: &[char], from: usize, to: usize) -> (r: Vec<char>)
    requires
        from <= to <= s@.len(),
    ensures
        r@ == s@.subrange(from as int, to as int),
{
    let mut r: Vec<char> = Vec::new();
    let mut i: usize = from;
    while i < to
        invariant
            from <= i <= to,
            to <= s@.len(),
            r@ == s@.subrange(from as int, i as int),
        decreases to - i,
    {
        r.push(s[i]);
        i = i + 1;
    }
    r
}

/// Every quoted text that follows an occurrence of `marker`, in order; a
/// marker not followed by a quote is skipped, and an unterminated quote ends
/// the search.
pub open spec fn quoted_fields_spec(rem: Seq<char>, marker: Seq<char>) -> Seq<Seq<char>>
    decreases rem.len(),
{
    match find(rem, marker) {
        None => seq![],
        Some(p) => if marker.len() == 0 || p < 0 || p + marker.len() > rem.len() {
            seq![]
        } else {
            let r1 = rem.subrange(p + marker.len(), rem.len() as int);
            if r1.len() == 0 {
                seq![]
            } else if !is_quote(r1[0]) {
                quoted_fields_spec(r1, marker)
            } else {
                let r2 = r1.drop_first();
                match find(r2, seq![r1[0]]) {
                    None => seq![],
                    Some(e) => if 0 <= e < r2.len() {
                        seq![r2.subrange(0, e)] + quoted_fields_spec(r2.subrange(e + 1, r2.len() as int), marker)
                    } else {
                        seq![]
                    },
                }
            }
        },
    }
}

/// Every quoted text that follows an occurrence of `marker`.
pub fn quoted_fields(source: &[char], marker: &[char]) -> (r: Vec<Vec<char>>)
    requires
        marker@.len() > 0,
    ensures
        crate::text::char_texts(r@) == quoted_fields_spec(source@, marker@),
{
    let mut values: Vec<Vec<char>> = Vec::new();
    let mut rem: Vec<char> = copy_range(source, 0, source.len());
    assert(source@.subrange(0, source@.len() as int) =~= source@);
    loop
        invariant
            marker@.len() > 0,
            quoted_fields_spec(source@, marker@) == crate::text::char_texts(values@) + quoted_fields_spec(rem@, marker@),
        decreases rem@.len(),
    {
        let ghost before = crate::text::char_texts(values@);
        let p = match find_chars(&rem, marker, 0) {
            None => {
                assert(quoted_fields_spec(source@, marker@) =~= crate::text::char_texts(values@));
                return values;
            },
            Some(p) => p,
        };
        proof {
            lemma_find_from(rem@, marker@, 0);
        }
        let n = rem.len();
        let m = marker.len();
        let r1 = copy_range(&rem, p + m, n);
        if r1.len() == 0 {
            assert(quoted_fields_spec(source@, marker@) =~= crate::text::char_texts(values@));
            return values;
        }
        let quote = r1[0];
        if !(quote == '`' || quote == '\'' || quote == '"') {
            rem = r1;
        } else {
            let r2 = copy_range(&r1, 1, r1.len());
            assert(r2@ =~= r1@.drop_first());
            let mut q: Vec<char> = Vec::new();
            q.push(quote);
            assert(q@ =~= seq![r1@[0]]);
            match find_chars(&r2, &q, 0) {
                None => {
                    assert(quoted_fields_spec(source@, marker@) =~= crate::text::char_texts(values@));
                    return values;
                },
                Some(e) => {
                    proof {
                        lemma_find_from(r2@, q@, 0);
                    }
                    let value = copy_range(&r2, 0, e);
                    let next = copy_range(&r2, e + 1, r2.len());
                    let ghost tail = quoted_fields_spec(next@, marker@);
                    values.push(value);
                    assert(crate::text::char_texts(values@) =~= before.push(r2@.subrange(0, e as int)));
                    assert(seq![r2@.subrange(0, e as int)] + tail =~= seq![r2@.subrange(0, e as int)] + tail);
                    assert(before + (seq![r2@.subrange(0, e as int)] + tail) =~= before.push(r2@.subrange(0, e as int)) + tail);
                    rem = next;
                },
            }
        }
    }
}

/// Where the bracket that opens `v` is closed, skipping brackets inside
/// quoted strings and escaped quotes; `depth` counts the open brackets.
pub open spec fn scan(v: Seq<char>, i: int, depth: nat, quote: Option<char>, escaped: bool, open: char, close: char) -> Option<int>
    decreases v.len() - i,
{
    if i < 0 || i >= v.len() {
        None
    } else {
        let ch = v[i];
        match quote {
            Some(q) => if escaped {
                scan(v, i + 1, depth, quote, false, open, close)
            } else if ch == '\\' {
                scan(v, i + 1, depth, quote, true, open, close)
            } else if ch == q {
                scan(v, i + 1, depth, None, false, open, close)
            } else {
                scan(v, i + 1, depth, quote, false, open, close)
            },
            None => if is_quote(ch) {
                scan(v, i + 1, depth, Some(ch), false, open, close)
            } else if ch == open {
                scan(v, i + 1, depth + 1, None, false, open, close)
            } else if ch == close {
                if depth == 0 {
                    None
                } else if depth == 1 {
                    Some(i)
                } else {
                    scan(v, i + 1, (depth - 1) as nat, None, false, open, close)
                }
            } else {
                scan(v, i + 1, depth, None, false, open, close)
            },
        }
    }
}

/// The bracketed value right after the first occurrence of `marker`,
/// brackets included.
pub open spec fn balanced_field_spec(source: Seq<char>, marker: Seq<char>, open: char, close: char) -> Option<Seq<char>> {
    match find(source, marker) {
        None => None,
        Some(i) => {
            let value = source.subrange(i + marker.len(), source.len() as int);
            if value.len() == 0 || value[0] != open {
                None
            } else {
                match scan(value, 0, 0, None, false, open, close) {
                    Some(p) => if 0 <= p < value.len() { Some(value.subrange(0, p + 1)) } else { None },
                    None => None,
                }
            }
        }
    }
}

/// The bracketed value right after the first occurrence of `marker`.
pub fn balanced_field(source: &[char], marker: &[char], open: char, close: char) -> (r: Option<Vec<char>>)
    ensures
        match r {
            Some(v) => balanced_field_spec(source@, marker@, open, close) == Some(v@),
            None => balanced_field_spec(source@, marker@, open, close) is None,
        },
{
    let i = match find_chars(source, marker, 0) {
        None => {
            return None;
        },
        Some(i) => i,
    };
    proof {
        lemma_find_from(source@, marker@, 0);
    }
    let n = source.len();
    let m = marker.len();
    let value = copy_range(source, i + m, n);
    if value.len() == 0 || value[0] != open {
        return None;
    }
    let mut depth: usize = 0;
    let mut quote: Option<char> = None;
    let mut escaped = false;
    let mut k: usize = 0;
    while k < value.len()
        invariant
            k <= value@.len(),
            depth <= k,
            n == source@.len(),
            m == marker@.len(),
            i + m <= n,
            find(source@, marker@) == Some(i as int),
            value@ == source@.subrange(i + m, n as int),
            value@.len() > 0 && value@[0] == open,
            quote is None ==> !escaped,
            scan(value@, 0, 0, None, false, open, close) == scan(value@, k as int, depth as nat, quote, escaped, open, close),
        decreases value@.len() - k,
    {
        let ch = value[k];
        match quote {
            Some(q) => {
                if escaped {
                    escaped = false;
                } else if ch == '\\' {
                    escaped = true;
                } else if ch == q {
                    quote = None;
                }
            },
            None => {
                if ch == '`' || ch == '\'' || ch == '"' {
                    quote = Some(ch);
                } else if ch == open {
                    depth = depth + 1;
                } else if ch == close {
                    if depth == 0 {
                        return None;
                    }
                    depth = depth - 1;
                    if depth == 0 {
                        return Some(copy_range(&value, 0, k + 1));
                    }
                }
            },
        }
        k = k + 1;
    }
    None
}

/// The object value right after `marker`.
pub fn object_field(source: &[char], marker: &[char]) -> (r: Option<Vec<char>>)
    ensures
        match r {
            Some(v) => balanced_field_spec(source@, marker@, '{', '}') == Some(v@),
            None => balanced_field_spec(source@, marker@, '{', '}') is None,
        },
{
    balanced_field(source, marker, '{', '}')
}

/// The array value right after `marker`.
pub fn array_field(source: &[char], marker: &[char]) -> (r: Option<Vec<char>>)
    ensures
        match r {
            Some(v) => balanced_field_spec(source@, marker@, '[', ']') == Some(v@),
            None => balanced_field_spec(source@, marker@, '[', ']') is None,
        },
{
    balanced_field(source, marker, '[', ']')
}

/// A metadata error as texts.
pub enum MetadataErrorView {
    Unreadable(Seq<char>),
    Invalid(Seq<char>),
    CommandMissing,
    CommandAmbiguous,
    ScopeMismatch,
    DefaultBindingMissing,
    DefaultBindingAmbiguous,
}

/// The view of a metadata error.
pub open spec fn metadata_error_view(e: MetadataError) -> MetadataErrorView {
    match e {
        MetadataError::Unreadable(t) => MetadataErrorView::Unreadable(t@),
        MetadataError::Invalid(t) => MetadataErrorView::Invalid(t@),
        MetadataError::CommandMissing => MetadataErrorView::CommandMissing,
        MetadataError::CommandAmbiguous => MetadataErrorView::CommandAmbiguous,
        MetadataError::ScopeMismatch => MetadataErrorView::ScopeMismatch,
        MetadataError::DefaultBindingMissing => MetadataErrorView::DefaultBindingMissing,
        MetadataError::DefaultBindingAmbiguous => MetadataErrorView::DefaultBindingAmbiguous,
    }
}

/// The text that names a command's record with one kind of quote.
pub open spec fn command_needle(command: Seq<char>, q: char) -> Seq<char> {
    "id:"@ + seq![q] + command + seq![q]
}

/// How often, up to two, a pattern occurs without overlap.
pub open spec fn match_count(s: Seq<char>, pat: Seq<char>) -> nat {
    match find(s, pat) {
        None => 0,
        Some(i) => if find_from(s, pat, i + pat.len()) is Some { 2 } else { 1 },
    }
}

/// The default keybinding list of an `electron` object: the platform default
/// list when there is one, else the generic default list.
pub open spec fn binding_list_spec(electron: Seq<char>) -> Option<Seq<char>> {
    match balanced_field_spec(electron, "platformDefaultKeybindings:"@, '{', '}') {
        Some(p) => match balanced_field_spec(p, "default:"@, '[', ']') {
            Some(x) => Some(x),
            None => balanced_field_spec(electron, "defaultKeybindings:"@, '[', ']'),
        },
        None => balanced_field_spec(electron, "defaultKeybindings:"@, '[', ']'),
    }
}

/// What reading a command's default binding from the bundle source yields:
/// the command must be named by exactly one record, the record must be
/// app-scoped, and its default list must hold exactly one key.
pub open spec fn extract_spec(source: Seq<char>, command: Seq<char>) -> Result<Seq<char>, MetadataErrorView> {
    let nb = command_needle(command, '`');
    let nq = command_needle(command, '\'');
    let nd = command_needle(command, '"');
    let total = match_count(source, nb) + match_count(source, nq) + match_count(source, nd);
    if total == 0 {
        Err(MetadataErrorView::CommandMissing)
    } else if total != 1 {
        Err(MetadataErrorView::CommandAmbiguous)
    } else {
        let pos = if match_count(source, nb) == 1 {
            find(source, nb)->0
        } else if match_count(source, nq) == 1 {
            find(source, nq)->0
        } else {
            find(source, nd)->0
        };
        if pos < 1 || pos > source.len() || source[pos - 1] != '{' {
            Err(MetadataErrorView::Invalid("the Codex command record has no start"@))
        } else {
            let after = source.subrange(pos - 1, source.len() as int);
            match find(after, "},{id:"@) {
                None => Err(MetadataErrorView::Invalid("the Codex command record has no safe boundary"@)),
                Some(e) => {
                    let record = after.subrange(0, e + 1);
                    if quoted_field_spec(record, "shortcutScope:"@) != Some("app"@) {
                        Err(MetadataErrorView::ScopeMismatch)
                    } else {
                        match balanced_field_spec(record, "electron:"@, '{', '}') {
                            None => Err(MetadataErrorView::DefaultBindingMissing),
                            Some(electron) => match binding_list_spec(electron) {
                                None => Err(MetadataErrorView::DefaultBindingMissing),
                                Some(list) => {
                                    let keys = quoted_fields_spec(list, "key:"@);
                                    if keys.len() == 0 {
                                        Err(MetadataErrorView::DefaultBindingMissing)
                                    } else if keys.len() == 1 {
                                        Ok(keys[0])
                                    } else {
                                        Err(MetadataErrorView::DefaultBindingAmbiguous)
                                    }
                                },
                            },
                        }
                    }
                },
            }
        }
    }
}

fn needle(command: &[char], q: char) -> (r: Vec<char>)
    ensures
        r@ == command_needle(command@, q),
{
    let mut r = chars_of("id:");
    r.push(q);
    let mut i: usize = 0;
    let ghost head = r@;
    while i < command.len()
        invariant
            i <= command@.len(),
            r@ == head + command@.subrange(0, i as int),
        decreases command@.len() - i,
    {
        r.push(command[i]);
        i = i + 1;
    }
    r.push(q);
    assert(r@ =~= command_needle(command@, q));
    r
}

fn count_matches(s: &[char], pat: &[char]) -> (r: (usize, usize))
    ensures
        r.0 == match_count(s@, pat@),
        r.0 >= 1 ==> find(s@, pat@) == Some(r.1 as int),
{
    match find_chars(s, pat, 0) {
        None => (0, 0),
        Some(i) => {
            proof {
                lemma_find_from(s@, pat@, 0);
            }
            let n = s.len();
            let m = pat.len();
            assert(i + m <= n);
            match find_chars(s, pat, i + m) {
                Some(_) => (2, i),
                None => (1, i),
            }
        },
    }
}

fn literal(text: &str) -> (r: Vec<char>)
    ensures
        r@ == text@,
{
    chars_of(text)
}

/// Reads the default binding of a Codex command from the bundle source.
pub fn extract_app_default_binding(source: &str, command: &str) -> (r: Result<String, MetadataError>)
    ensures
        match extract_spec(source@, command@) {
            Ok(key) => r matches Ok(k) && k@ == key,
            Err(e) => r matches Err(x) && metadata_error_view(x) == e,
        },
{
    let src = chars_of(source);
    let cmd = chars_of(command);
    let nb = needle(&cmd, '`');
    let nq = needle(&cmd, '\'');
    let nd = needle(&cmd, '"');
    let (cb, pb) = count_matches(&src, &nb);
    let (cq, pq) = count_matches(&src, &nq);
    let (cd, pd) = count_matches(&src, &nd);
    let total = cb + cq + cd;
    if total == 0 {
        return Err(MetadataError::CommandMissing);
    }
    if total != 1 {
        return Err(MetadataError::CommandAmbiguous);
    }
    let pos = if cb == 1 { pb } else if cq == 1 { pq } else { pd };
    if pos < 1 || pos > src.len() || src[pos - 1] != '{' {
        return Err(MetadataError::Invalid(String::from_str("the Codex command record has no start")));
    }
    let after = copy_range(&src, pos - 1, src.len());
    let boundary = literal("},{id:");
    let e = match find_chars(&after, &boundary, 0) {
        None => {
            return Err(MetadataError::Invalid(String::from_str("the Codex command record has no safe boundary")));
        },
        Some(e) => e,
    };
    proof {
        lemma_find_from(after@, boundary@, 0);
        reveal_strlit("},{id:");
    }
    let record = copy_range(&after, 0, e + 1);
    let scope_marker = literal("shortcutScope:");
    let in_scope = match quoted_field(&record, &scope_marker) {
        Some(scope) => crate::text::chars_eq(&scope, "app"),
        None => false,
    };
    if !in_scope {
        return Err(MetadataError::ScopeMismatch);
    }
    let electron = match object_field(&record, &literal("electron:")) {
        None => {
            return Err(MetadataError::DefaultBindingMissing);
        },
        Some(x) => x,
    };
    let generic = literal("defaultKeybindings:");
    let list = match object_field(&electron, &literal("platformDefaultKeybindings:")) {
        Some(platform) => match array_field(&platform, &literal("default:")) {
            Some(x) => Some(x),
            None => array_field(&electron, &generic),
        },
        None => array_field(&electron, &generic),
    };
    let list = match list {
        None => {
            return Err(MetadataError::DefaultBindingMissing);
        },
        Some(l) => l,
    };
    let key_marker = literal("key:");
    proof {
        reveal_strlit("key:");
    }
    let keys = quoted_fields(&list, &key_marker);
    if keys.len() == 0 {
        Err(MetadataError::DefaultBindingMissing)
    } else if keys.len() == 1 {
        Ok(string_of(&keys[0]))
    } else {
        Err(MetadataError::DefaultBindingAmbiguous)
    }
}

/// The largest ASAR header that is read.
pub const MAX_ASAR_HEADER_BYTES: u64 = 33554432;

/// The largest command bundle that is read.
pub const MAX_COMMAND_BUNDLE_BYTES: u64 = 33554432;

/// The little-endian `u32` at `k` in bytes.
pub open spec fn le_u32(b: Seq<u8>, k: int) -> nat {
    (b[k] + b[k + 1] * 256 + b[k + 2] * 65536 + b[k + 3] * 16777216) as nat
}

fn read_le_u32(b: &[u8; 16], k: usize) -> (r: u64)
    requires
        k + 4 <= 16,
    ensures
        r == le_u32(b@, k as int),
        r < 4294967296,
{
    (b[k] as u64) + (b[k + 1] as u64) * 256 + (b[k + 2] as u64) * 65536 + (b[k + 3] as u64) * 16777216
}

/// The JSON size and the data offset that an ASAR prefix declares, or why
/// the prefix is refused: its pickle sizes must agree, the header must be at
/// most 32 MiB, and the header must lie inside the archive.
pub open spec fn header_layout_spec(prefix: Seq<u8>, archive_len: nat) -> Result<(nat, nat), Seq<char>> {
    let size_payload = le_u32(prefix, 0);
    let header_size = le_u32(prefix, 4);
    let header_payload = le_u32(prefix, 8);
    let json_size = le_u32(prefix, 12);
    if size_payload != 4 || !(8 <= header_size <= MAX_ASAR_HEADER_BYTES) || header_payload + 4 != header_size
        || json_size > (if header_payload >= 4 { header_payload - 4 } else { 0 }) {
        Err("the Codex ASAR header has an unsupported shape"@)
    } else if 16 + json_size > 8 + header_size || 8 + header_size > archive_len {
        Err("the Codex ASAR header extends beyond the archive"@)
    } else {
        Ok((json_size, (8 + header_size) as nat))
    }
}

/// Checks the sixteen-byte ASAR prefix against the archive length and
/// returns the size of the header JSON and where the file data starts.
pub fn asar_header_layout(prefix: &[u8; 16], archive_len: u64) -> (r: Result<(u64, u64), MetadataError>)
    ensures
        match header_layout_spec(prefix@, archive_len as nat) {
            Ok((json_size, data_start)) => r matches Ok((j, d)) && j == json_size && d == data_start,
            Err(message) => r matches Err(MetadataError::Invalid(m)) && m@ == message,
        },
{
    let size_payload = read_le_u32(prefix, 0);
    let header_size = read_le_u32(prefix, 4);
    let header_payload = read_le_u32(prefix, 8);
    let json_size = read_le_u32(prefix, 12);
    let room: u64 = if header_payload >= 4 { header_payload - 4 } else { 0 };
    if size_payload != 4 || !(8 <= header_size && header_size <= MAX_ASAR_HEADER_BYTES) || header_payload + 4 != header_size
        || json_size > room {
        return Err(MetadataError::Invalid(String::from_str("the Codex ASAR header has an unsupported shape")));
    }
    let data_start = 8 + header_size;
    let json_end = 16 + json_size;
    if json_end > data_start || data_start > archive_len {
        return Err(MetadataError::Invalid(String::from_str("the Codex ASAR header extends beyond the archive")));
    }
    Ok((json_size, data_start))
}

/// Reads decimal digits from `i` on, onto `value`, as `str::parse::<u64>`
/// does: a non-digit or a value above `u64::MAX` stops it with the words of
/// `ParseIntError`.
pub open spec fn parse_digits_from(d: Seq<char>, i: int, value: nat) -> Result<nat, Seq<char>>
    decreases d.len() - i,
{
    if i < 0 || i >= d.len() {
        Ok(value)
    } else if !('0' <= d[i] && d[i] <= '9') {
        Err("invalid digit found in string"@)
    } else if value * 10 + ((d[i] as nat) - 48) > 18446744073709551615 {
        Err("number too large to fit in target type"@)
    } else {
        parse_digits_from(d, i + 1, (value * 10 + ((d[i] as nat) - 48)) as nat)
    }
}

/// The `u64` that a text denotes, or why it denotes none.
pub open spec fn parse_u64_spec(s: Seq<char>) -> Result<nat, Seq<char>> {
    let d = if s.len() > 0 && s[0] == '+' { s.drop_first() } else { s };
    if s.len() == 0 {
        Err("cannot parse integer from empty string"@)
    } else if d.len() == 0 {
        Err("invalid digit found in string"@)
    } else {
        parse_digits_from(d, 0, 0)
    }
}

fn parse_u64_chars(s: &[char]) -> (r: Result<u64, String>)
    ensures
        match parse_u64_spec(s@) {
            Ok(n) => r matches Ok(v) && v == n,
            Err(m) => r matches Err(e) && e@ == m,
        },
{
    if s.len() == 0 {
        return Err(String::from_str("cannot parse integer from empty string"));
    }
    let start: usize = if s[0] == '+' { 1 } else { 0 };
    let ghost d = if s@.len() > 0 && s@[0] == '+' { s@.drop_first() } else { s@ };
    assert(d =~= s@.subrange(start as int, s@.len() as int));
    if start >= s.len() {
        return Err(String::from_str("invalid digit found in string"));
    }
    let mut value: u64 = 0;
    let mut i: usize = start;
    while i < s.len()
        invariant
            start <= i <= s@.len(),
            d == s@.subrange(start as int, s@.len() as int),
            parse_u64_spec(s@) == parse_digits_from(d, i - start, value as nat),
        decreases s@.len() - i,
    {
        let c = s[i];
        assert(d[i - start] == c);
        if c < '0' || c > '9' {
            return Err(String::from_str("invalid digit found in string"));
        }
        let digit: u64 = (c as u32 - 48) as u64;
        if value > 1844674407370955161 || (value == 1844674407370955161 && digit > 5) {
            return Err(String::from_str("number too large to fit in target type"));
        }
        value = value * 10 + digit;
        i = i + 1;
    }
    Ok(value)
}

/// Where the command bundle's content lies in the archive, from the data
/// offset, the entry's size and offset text, and the archive length.
pub open spec fn bundle_range_spec(data_start: nat, size: Option<u64>, offset: Option<Seq<char>>, archive_len: nat) -> Result<(nat, nat), Seq<char>> {
    match size {
        None => Err("the Codex command bundle has no size"@),
        Some(size) => if size > MAX_COMMAND_BUNDLE_BYTES {
            Err("the Codex command bundle exceeds the safe read limit"@)
        } else {
            match offset {
                None => Err("the Codex command bundle has no offset"@),
                Some(text) => match parse_u64_spec(text) {
                    Err(m) => Err("the Codex command bundle offset is invalid: "@ + m),
                    Ok(relative) => if data_start + relative > 18446744073709551615 {
                        Err("the Codex bundle offset overflowed"@)
                    } else if data_start + relative + size > 18446744073709551615 {
                        Err("the Codex bundle size overflowed"@)
                    } else if data_start + relative + size > archive_len {
                        Err("the Codex command bundle extends beyond the archive"@)
                    } else {
                        Ok(((data_start + relative) as nat, size as nat))
                    },
                },
            }
        },
    }
}

/// Where the command bundle's content lies: its start and its length.
pub fn bundle_range(data_start: u64, size: Option<u64>, offset: Option<&str>, archive_len: u64) -> (r: Result<(u64, u64), MetadataError>)
    ensures
        match bundle_range_spec(data_start as nat, size, crate::actions::opt_str(offset), archive_len as nat) {
            Ok((start, len)) => r matches Ok((s, l)) && s == start && l == len,
            Err(message) => r matches Err(MetadataError::Invalid(m)) && m@ == message,
        },
{
    let size = match size {
        None => {
            return Err(MetadataError::Invalid(String::from_str("the Codex command bundle has no size")));
        },
        Some(s) => s,
    };
    if size > MAX_COMMAND_BUNDLE_BYTES {
        return Err(MetadataError::Invalid(String::from_str("the Codex command bundle exceeds the safe read limit")));
    }
    let text = match offset {
        None => {
            return Err(MetadataError::Invalid(String::from_str("the Codex command bundle has no offset")));
        },
        Some(t) => t,
    };
    let chars = chars_of(text);
    let relative = match parse_u64_chars(&chars) {
        Err(m) => {
            let mut message = String::from_str("the Codex command bundle offset is invalid: ");
            message.append(m.as_str());
            return Err(MetadataError::Invalid(message));
        },
        Ok(v) => v,
    };
    let start = match data_start.checked_add(relative) {
        None => {
            return Err(MetadataError::Invalid(String::from_str("the Codex bundle offset overflowed")));
        },
        Some(v) => v,
    };
    let end = match start.checked_add(size) {
        None => {
            return Err(MetadataError::Invalid(String::from_str("the Codex bundle size overflowed")));
        },
        Some(v) => v,
    };
    if end > archive_len {
        return Err(MetadataError::Invalid(String::from_str("the Codex command bundle extends beyond the archive")));
    }
    Ok((start, size))
}

/// An entry of an ASAR archive's header: a directory with its files, or a
/// file with its size and the offset text of its content.
#[derive(Debug)]
pub struct AsarEntry {
    /// The entries of a directory, by name, each name once.
    pub files: Vec<(String, AsarEntry)>,
    pub size: Option<u64>,
    pub offset: Option<String>,
    pub unpacked: bool,
}

/// The entry with a name among the files of a directory.
pub open spec fn entry_named(files: Seq<(String, AsarEntry)>, name: Seq<char>) -> Option<AsarEntry>
    decreases files.len(),
{
    if files.len() == 0 {
        None
    } else if files[0].0@ == name {
        Some(files[0].1)
    } else {
        entry_named(files.drop_first(), name)
    }
}

/// Whether a file name is that of a command bundle: `app-initial-*.js`.
pub open spec fn is_bundle_name(name: Seq<char>) -> bool {
    &&& name.len() >= 12
    &&& name.subrange(0, 12) == "app-initial-"@
    &&& name.len() >= 3
    &&& name.subrange(name.len() - 3, name.len() as int) == ".js"@
}

/// Whether a file is a command bundle that is packed in the archive.
pub open spec fn is_bundle(file: (String, AsarEntry)) -> bool {
    is_bundle_name(file.0@) && !file.1.unpacked
}

/// How many of the files are packed command bundles.
pub open spec fn bundle_count(files: Seq<(String, AsarEntry)>) -> nat
    decreases files.len(),
{
    if files.len() == 0 {
        0
    } else {
        bundle_count(files.drop_last()) + if is_bundle(files.last()) {
            1nat
        } else {
            0nat
        }
    }
}

/// The assets directory of the Codex webview in an archive's header.
pub open spec fn assets_of(header: Seq<(String, AsarEntry)>) -> Option<AsarEntry> {
    match entry_named(header, "webview"@) {
        Some(webview) => entry_named(webview.files@, "assets"@),
        None => None,
    }
}

/// The entry with a name among the files of a directory.
fn find_entry<'a>(files: &'a Vec<(String, AsarEntry)>, name: &str) -> (r: Option<&'a AsarEntry>)
    ensures
        match entry_named(files@, name@) {
            Some(e) => r matches Some(x) && *x == e,
            None => r is None,
        },
{
    let mut i: usize = 0;
    assert(files@.subrange(0, files@.len() as int) =~= files@);
    while i < files.len()
        invariant
            i <= files@.len(),
            entry_named(files@, name@) == entry_named(files@.subrange(i as int, files@.len() as int), name@),
        decreases files.len() - i,
    {
        let ghost rest = files@.subrange(i as int, files@.len() as int);
        assert(rest.drop_first() =~= files@.subrange(i + 1, files@.len() as int));
        if crate::text::str_eq(files[i].0.as_str(), name) {
            return Some(&files[i].1);
        }
        i = i + 1;
    }
    None
}

/// Whether a name starts with `app-initial-` and ends with `.js`.
fn bundle_name(name: &str) -> (r: bool)
    ensures
        r == is_bundle_name(name@),
{
    proof {
        reveal_strlit("app-initial-");
        reveal_strlit(".js");
    }
    let chars = chars_of(name);
    let prefix = chars_of("app-initial-");
    let suffix = chars_of(".js");
    if chars.len() < 12 {
        return false;
    }
    let mut i: usize = 0;
    while i < 12
        invariant
            chars@ == name@,
            prefix@ == "app-initial-"@,
            prefix@.len() == 12,
            chars@.len() >= 12,
            i <= 12,
            forall|j: int| 0 <= j < i ==> chars@[j] == prefix@[j],
        decreases 12 - i,
    {
        if chars[i] != prefix[i] {
            assert(chars@.subrange(0, 12)[i as int] != "app-initial-"@[i as int]);
            return false;
        }
        i = i + 1;
    }
    assert(chars@.subrange(0, 12) =~= "app-initial-"@);
    let n = chars.len();
    let mut k: usize = 0;
    while k < 3
        invariant
            chars@ == name@,
            suffix@ == ".js"@,
            suffix@.len() == 3,
            n == chars@.len(),
            n >= 12,
            k <= 3,
            forall|j: int| 0 <= j < k ==> chars@[n - 3 + j] == suffix@[j],
        decreases 3 - k,
    {
        if chars[n - 3 + k] != suffix[k] {
            assert(chars@.subrange(n - 3, n as int)[k as int] != ".js"@[k as int]);
            return false;
        }
        k = k + 1;
    }
    assert(chars@.subrange(n - 3, n as int) =~= ".js"@);
    true
}

/// The one packed command bundle among the webview assets of an archive's
/// header; a missing assets directory, no bundle, or more than one bundle is
/// refused.
pub fn find_command_bundle(header: &Vec<(String, AsarEntry)>) -> (r: Result<&AsarEntry, MetadataError>)
    ensures
        assets_of(header@) is None ==> (r matches Err(MetadataError::Invalid(m)) && m@
            == "the Codex webview assets directory is missing"@),
        assets_of(header@) matches Some(assets) ==> {
            &&& bundle_count(assets.files@) == 0 ==> (r matches Err(MetadataError::Invalid(m)) && m@
                == "the Codex command bundle is missing"@)
            &&& bundle_count(assets.files@) > 1 ==> (r matches Err(MetadataError::Invalid(m)) && m@
                == "more than one Codex command bundle was found"@)
            &&& bundle_count(assets.files@) == 1 ==> (r matches Ok(e) && exists|i: int|
                0 <= i < assets.files@.len() && is_bundle(#[trigger] assets.files@[i]) && assets.files@[i].1 == *e)
        },
{
    let webview = match find_entry(header, "webview") {
        Some(w) => w,
        None => {
            return Err(MetadataError::Invalid(String::from_str("the Codex webview assets directory is missing")));
        },
    };
    let assets = match find_entry(&webview.files, "assets") {
        Some(a) => a,
        None => {
            return Err(MetadataError::Invalid(String::from_str("the Codex webview assets directory is missing")));
        },
    };
    assert(entry_named(header@, "webview"@) == Some(*webview));
    assert(assets_of(header@) == Some(*assets));
    let files = &assets.files;
    let mut found: Option<usize> = None;
    let mut i: usize = 0;
    while i < files.len()
        invariant
            i <= files@.len(),
            assets_of(header@) == Some(*assets),
            *files == assets.files,
            found is None ==> bundle_count(files@.subrange(0, i as int)) == 0,
            found matches Some(k) ==> k < i && is_bundle(files@[k as int]) && bundle_count(files@.subrange(0, i as int))
                == 1,
        decreases files.len() - i,
    {
        let ghost p = files@.subrange(0, i + 1);
        assert(p.drop_last() =~= files@.subrange(0, i as int));
        if bundle_name(files[i].0.as_str()) && !files[i].1.unpacked {
            if found.is_some() {
                proof {
                    lemma_bundle_count_grows(files@, i as int + 1);
                }
                return Err(MetadataError::Invalid(String::from_str("more than one Codex command bundle was found")));
            }
            found = Some(i);
        }
        i = i + 1;
    }
    assert(files@.subrange(0, files@.len() as int) =~= files@);
    match found {
        Some(k) => Ok(&files[k].1),
        None => Err(MetadataError::Invalid(String::from_str("the Codex command bundle is missing"))),
    }
}

/// The count of bundles of a prefix is at most that of the whole.
proof fn lemma_bundle_count_grows(files: Seq<(String, AsarEntry)>, n: int)
    requires
        0 <= n <= files.len(),
    ensures
        bundle_count(files.subrange(0, n)) <= bundle_count(files),
    decreases files.len() - n,
{
    if n < files.len() {
        lemma_bundle_count_grows(files, n + 1);
        let p = files.subrange(0, n + 1);
        assert(p.drop_last() =~= files.subrange(0, n));
    } else {
        assert(files.subrange(0, n) =~= files);
    }
}

/// When an archive was last modified, as the file system reports it.
#[derive(Debug, Clone, Copy, PartialEq, Eq, Structural)]
pub struct ModifiedTime {
    pub before_epoch: bool,
    pub secs: u64,
    pub nanos: u32,
}

/// What identifies one state of an archive on disk: its length and when it
/// was modified, where the file system reports that.
#[derive(Debug, Clone, Copy, PartialEq, Eq, Structural)]
pub struct ArchiveFingerprint {
    pub len: u64,
    pub modified: Option<ModifiedTime>,
}

/// The outcome of reading a binding, as texts.
pub open spec fn outcome_view(r: Result<String, MetadataError>) -> Result<Seq<char>, MetadataErrorView> {
    match r {
        Ok(s) => Ok(s@),
        Err(e) => Err(metadata_error_view(e)),
    }
}

/// A copy of a metadata error.
fn copy_error(e: &MetadataError) -> (c: MetadataError)
    ensures
        metadata_error_view(c) == metadata_error_view(*e),
{
    match e {
        MetadataError::Unreadable(t) => MetadataError::Unreadable(t.clone()),
        MetadataError::Invalid(t) => MetadataError::Invalid(t.clone()),
        MetadataError::CommandMissing => MetadataError::CommandMissing,
        MetadataError::CommandAmbiguous => MetadataError::CommandAmbiguous,
        MetadataError::ScopeMismatch => MetadataError::ScopeMismatch,
        MetadataError::DefaultBindingMissing => MetadataError::DefaultBindingMissing,
        MetadataError::DefaultBindingAmbiguous => MetadataError::DefaultBindingAmbiguous,
    }
}

/// A copy of the outcome of reading a binding.
fn copy_outcome(r: &Result<String, MetadataError>) -> (c: Result<String, MetadataError>)
    ensures
        outcome_view(c) == outcome_view(*r),
{
    match r {
        Ok(s) => Ok(s.clone()),
        Err(e) => Err(copy_error(e)),
    }
}

/// One remembered outcome.
struct CachedBinding {
    archive: String,
    command: String,
    fingerprint: ArchiveFingerprint,
    result: Result<String, MetadataError>,
}

/// The remembered outcome of reading a command's binding from an archive,
/// with the fingerprint of the archive it was read from.
pub struct BindingCache {
    entries: Vec<CachedBinding>,
}

impl BindingCache {
    /// The remembered outcomes, by archive path and command.
    pub closed spec fn view_entries(&self) -> Map<(Seq<char>, Seq<char>), (ArchiveFingerprint, Result<Seq<char>, MetadataErrorView>)> {
        Map::new(
            |k: (Seq<char>, Seq<char>)|
                exists|i: int|
                    0 <= i < self.entries@.len() && self.entries@[i].archive@ == k.0 && self.entries@[i].command@ == k.1,
            |k: (Seq<char>, Seq<char>)|
                {
                    let i = choose|i: int|
                        0 <= i < self.entries@.len() && self.entries@[i].archive@ == k.0 && self.entries@[i].command@
                            == k.1;
                    (self.entries@[i].fingerprint, outcome_view(self.entries@[i].result))
                },
        )
    }

    /// No two entries share a key; this holds of every cache.
    #[verifier::type_invariant]
    pub closed spec fn wf(&self) -> bool {
        forall|i: int, j: int|
            0 <= i < j < self.entries@.len() ==> #[trigger] self.entries@[i].archive@ != #[trigger] self.entries@[j].archive@
                || self.entries@[i].command@ != self.entries@[j].command@
    }

    proof fn lemma_index(&self, i: int)
        requires
            self.wf(),
            0 <= i < self.entries@.len(),
        ensures
            self.view_entries().dom().contains((self.entries@[i].archive@, self.entries@[i].command@)),
            self.view_entries()[(self.entries@[i].archive@, self.entries@[i].command@)] == (
                self.entries@[i].fingerprint,
                outcome_view(self.entries@[i].result),
            ),
    {
        let a = self.entries@[i].archive@;
        let c = self.entries@[i].command@;
        assert(exists|k: int| 0 <= k < self.entries@.len() && self.entries@[k].archive@ == a && self.entries@[k].command@ == c);
        let k = choose|k: int| 0 <= k < self.entries@.len() && self.entries@[k].archive@ == a && self.entries@[k].command@ == c;
        if k < i {
            assert(self.entries@[k].archive@ != self.entries@[i].archive@ || self.entries@[k].command@ != self.entries@[i].command@);
        } else if i < k {
            assert(self.entries@[i].archive@ != self.entries@[k].archive@ || self.entries@[i].command@ != self.entries@[k].command@);
        }
    }

    /// A cache that remembers nothing.
    pub fn new() -> (c: BindingCache)
        ensures
            c.wf(),
            c.view_entries() == Map::<(Seq<char>, Seq<char>), (ArchiveFingerprint, Result<Seq<char>, MetadataErrorView>)>::empty(),
    {
        let c = BindingCache { entries: Vec::new() };
        assert(c.view_entries() =~= Map::<(Seq<char>, Seq<char>), (ArchiveFingerprint, Result<Seq<char>, MetadataErrorView>)>::empty());
        c
    }

    fn position(&self, archive: &str, command: &str) -> (r: Option<usize>)
        requires
            self.wf(),
        ensures
            r matches Some(i) ==> i < self.entries@.len() && self.entries@[i as int].archive@ == archive@
                && self.entries@[i as int].command@ == command@,
            r is None ==> !self.view_entries().dom().contains((archive@, command@)),
    {
        let mut i: usize = 0;
        while i < self.entries.len()
            invariant
                i <= self.entries@.len(),
                forall|k: int|
                    0 <= k < i ==> !(#[trigger] self.entries@[k].archive@ == archive@ && self.entries@[k].command@ == command@),
            decreases self.entries.len() - i,
        {
            if crate::text::str_eq(self.entries[i].archive.as_str(), archive) && crate::text::str_eq(
                self.entries[i].command.as_str(),
                command,
            ) {
                return Some(i);
            }
            i = i + 1;
        }
        None
    }

    /// The outcome remembered for a command of an archive, if the archive
    /// still has the fingerprint it was read with.
    pub fn lookup(&self, archive: &str, command: &str, fingerprint: ArchiveFingerprint) -> (r: Option<
        Result<String, MetadataError>,
    >)
        ensures
            r is Some <==> (self.view_entries().dom().contains((archive@, command@)) && self.view_entries()[(
                archive@,
                command@,
            )].0 == fingerprint),
            r matches Some(o) ==> outcome_view(o) == self.view_entries()[(archive@, command@)].1,
    {
        proof {
            use_type_invariant(self);
        }
        match self.position(archive, command) {
            Some(i) => {
                proof {
                    self.lemma_index(i as int);
                }
                let entry = &self.entries[i];
                if entry.fingerprint == fingerprint {
                    Some(copy_outcome(&entry.result))
                } else {
                    None
                }
            },
            None => None,
        }
    }

    /// Remembers the outcome of reading a command's binding from an archive
    /// with a fingerprint, in place of any earlier one.
    pub fn store(&mut self, archive: &str, command: &str, fingerprint: ArchiveFingerprint, result: Result<String, MetadataError>)
        ensures
            final(self).wf(),
            final(self).view_entries() == old(self).view_entries().insert((archive@, command@), (fingerprint, outcome_view(result))),
    {
        proof {
            use_type_invariant(&*self);
        }
        let ghost before = *self;
        let ghost value = (fingerprint, outcome_view(result));
        let entry = CachedBinding {
            archive: String::from_str(archive),
            command: String::from_str(command),
            fingerprint,
            result,
        };
        match self.position(archive, command) {
            Some(i) => {
                let mut items: Vec<CachedBinding> = Vec::new();
                std::mem::swap(&mut items, &mut self.entries);
                items.set(i, entry);
                proof {
                    let after = BindingCache { entries: items };
                    assert forall|a: int, b: int| 0 <= a < b < after.entries@.len() implies #[trigger] after.entries@[a].archive@
                        != #[trigger] after.entries@[b].archive@ || after.entries@[a].command@ != after.entries@[b].command@ by {
                        assert(before.entries@[a].archive@ != before.entries@[b].archive@ || before.entries@[a].command@
                            != before.entries@[b].command@);
                    }
                    assert forall|k: (Seq<char>, Seq<char>)| #[trigger] after.view_entries().dom().contains(k)
                        == before.view_entries().insert((archive@, command@), value).dom().contains(k) by {
                        if before.view_entries().dom().contains(k) {
                            let j = choose|j: int| 0 <= j < before.entries@.len() && before.entries@[j].archive@ == k.0
                                && before.entries@[j].command@ == k.1;
                            assert(after.entries@[j].archive@ == k.0 && after.entries@[j].command@ == k.1);
                        }
                        if after.view_entries().dom().contains(k) {
                            let j = choose|j: int| 0 <= j < after.entries@.len() && after.entries@[j].archive@ == k.0
                                && after.entries@[j].command@ == k.1;
                            assert(before.entries@[j].archive@ == k.0 && before.entries@[j].command@ == k.1);
                        }
                    }
                    assert forall|k: (Seq<char>, Seq<char>)| #[trigger] after.view_entries().dom().contains(k) implies after.view_entries()[k]
                        == before.view_entries().insert((archive@, command@), value)[k] by {
                        let j = choose|j: int| 0 <= j < after.entries@.len() && after.entries@[j].archive@ == k.0
                            && after.entries@[j].command@ == k.1;
                        after.lemma_index(j);
                        if j != i {
                            before.lemma_index(j);
                        }
                    }
                    assert(after.view_entries() =~= before.view_entries().insert((archive@, command@), value));
                }
                self.entries = items;
            },
            None => {
                let mut items: Vec<CachedBinding> = Vec::new();
                std::mem::swap(&mut items, &mut self.entries);
                items.push(entry);
                proof {
                    let after = BindingCache { entries: items };
                    let n = before.entries@.len() as int;
                    assert forall|a: int, b: int| 0 <= a < b < after.entries@.len() implies #[trigger] after.entries@[a].archive@
                        != #[trigger] after.entries@[b].archive@ || after.entries@[a].command@ != after.entries@[b].command@ by {
                        if b == n {
                            if before.entries@[a].archive@ == archive@ && before.entries@[a].command@ == command@ {
                                before.lemma_index(a);
                            }
                        } else {
                            assert(before.entries@[a].archive@ != before.entries@[b].archive@ || before.entries@[a].command@
                                != before.entries@[b].command@);
                        }
                    }
                    assert forall|k: (Seq<char>, Seq<char>)| #[trigger] after.view_entries().dom().contains(k)
                        == before.view_entries().insert((archive@, command@), value).dom().contains(k) by {
                        if before.view_entries().dom().contains(k) {
                            let j = choose|j: int| 0 <= j < before.entries@.len() && before.entries@[j].archive@ == k.0
                                && before.entries@[j].command@ == k.1;
                            assert(after.entries@[j].archive@ == k.0 && after.entries@[j].command@ == k.1);
                        }
                        if after.view_entries().dom().contains(k) && k != (archive@, command@) {
                            let j = choose|j: int| 0 <= j < after.entries@.len() && after.entries@[j].archive@ == k.0
                                && after.entries@[j].command@ == k.1;
                            assert(j < n);
                            assert(before.entries@[j].archive@ == k.0 && before.entries@[j].command@ == k.1);
                        }
                        if k == (archive@, command@) {
                            assert(after.entries@[n].archive@ == k.0 && after.entries@[n].command@ == k.1);
                        }
                    }
                    assert forall|k: (Seq<char>, Seq<char>)| #[trigger] after.view_entries().dom().contains(k) implies after.view_entries()[k]
                        == before.view_entries().insert((archive@, command@), value)[k] by {
                        let j = choose|j: int| 0 <= j < after.entries@.len() && after.entries@[j].archive@ == k.0
                            && after.entries@[j].command@ == k.1;
                        after.lemma_index(j);
                        if j < n {
                            before.lemma_index(j);
                        }
                    }
                    assert(after.view_entries() =~= before.view_entries().insert((archive@, command@), value));
                }
                self.entries = items;
            },
        }
    }
}


/// The text that `String::from_utf8` displays for bytes that are not UTF-8
/// (its `FromUtf8Error`, which reports where the first invalid sequence
/// begins).
pub uninterp spec fn utf8_error_text(bytes: Seq<u8>) -> Seq<char>;

/// `String::from_utf8`: the text that the bytes encode when they are UTF-8,
/// and otherwise the error's displayed text.
#[verifier::external_body]
fn utf8_string(bytes: Vec<u8>) -> (r: Result<String, String>)
    ensures
        r is Ok <==> vstd::utf8::valid_utf8(bytes@),
        r matches Ok(s) ==> s@ == vstd::utf8::decode_utf8(bytes@),
        r matches Err(t) ==> t@ == utf8_error_text(bytes@),
{
    match String::from_utf8(bytes) {
        Ok(text) => Ok(text),
        Err(error) => Err(error.to_string()),
    }
}

/// The command bundle's source from its decoding: the text, or an invalid
/// archive that quotes the decoding error.
pub fn bundle_source_from(decoded: Result<String, String>) -> (r: Result<String, MetadataError>)
    ensures
        decoded matches Ok(s) ==> r == Ok::<String, MetadataError>(s),
        decoded matches Err(t) ==> (r matches Err(MetadataError::Invalid(d))
            && d@ == "the Codex command bundle is not UTF-8: "@ + t@),
{
    match decoded {
        Ok(text) => Ok(text),
        Err(t) => {
            let mut detail = String::from_str("the Codex command bundle is not UTF-8: ");
            detail.append(t.as_str());
            Err(MetadataError::Invalid(detail))
        },
    }
}

/// The command bundle's bytes as text: the text they encode when they are
/// UTF-8, else an invalid archive that quotes where the encoding breaks.
pub fn bundle_source_text(bytes: Vec<u8>) -> (r: Result<String, MetadataError>)
    ensures
        vstd::utf8::valid_utf8(bytes@) ==> (r matches Ok(s) && s@ == vstd::utf8::decode_utf8(bytes@)),
        !vstd::utf8::valid_utf8(bytes@) ==> (r matches Err(MetadataError::Invalid(d))
            && d@ == "the Codex command bundle is not UTF-8: "@ + utf8_error_text(bytes@)),
{
    bundle_source_from(utf8_string(bytes))
}

} // verus!
