//! The clients connected to the Omarchy host: their names, their input
//! counts, and the pairings that were refused.

use vstd::prelude::*;
use crate::diagnostics::drop_controls;
use crate::text::{chars_of, str_eq, string_of, trim, trim_chars};

verus! {

/// The most characters of a client's name that are kept.
pub const CLIENT_NAME_LIMIT: usize = 64;

/// What the host knows of one connected client.
#[derive(Debug, Clone)]
pub struct ClientSummary {
    pub id: String,
    pub name: String,
    pub connected_at: u64,
    pub last_input_at: Option<u64>,
    pub input_messages: u64,
}

/// A client summary as texts and numbers.
pub struct ClientView {
    pub name: Seq<char>,
    pub connected_at: u64,
    pub last_input_at: Option<u64>,
    pub input_messages: u64,
}

/// The view of a client summary.
pub open spec fn client_view(c: ClientSummary) -> ClientView {
    ClientView {
        name: c.name@,
        connected_at: c.connected_at,
        last_input_at: c.last_input_at,
        input_messages: c.input_messages,
    }
}

/// The clients of the host, the refused pairings and when the last one was refused.
pub struct Connections {
    clients: Vec<ClientSummary>,
    rejected_pairings: u64,
    last_rejected_at: Option<u64>,
}

/// The first `n` characters of a text, or all of them when it is shorter.
pub open spec fn first_chars(s: Seq<char>, n: nat) -> Seq<char> {
    if s.len() <= n {
        s
    } else {
        s.subrange(0, n as int)
    }
}

/// The name that a client's announced name becomes: its first 64 characters
/// other than control characters, trimmed.
pub open spec fn client_name(raw: Seq<char>) -> Seq<char> {
    trim(first_chars(drop_controls(raw), CLIENT_NAME_LIMIT as nat))
}

impl Connections {
    /// The clients by id.
    pub closed spec fn view_clients(&self) -> Map<Seq<char>, ClientView> {
        Map::new(
            |id: Seq<char>| exists|i: int| 0 <= i < self.clients@.len() && self.clients@[i].id@ == id,
            |id: Seq<char>|
                client_view(
                    self.clients@[choose|i: int| 0 <= i < self.clients@.len() && self.clients@[i].id@ == id],
                ),
        )
    }

    /// How many pairings were refused.
    pub closed spec fn rejected(&self) -> u64 {
        self.rejected_pairings
    }

    /// When the last pairing was refused.
    pub closed spec fn last_rejected(&self) -> Option<u64> {
        self.last_rejected_at
    }

    /// How many pairings were refused.
    pub fn rejected_pairings(&self) -> (n: u64)
        ensures
            n == self.rejected(),
    {
        self.rejected_pairings
    }

    /// When the last pairing was refused.
    pub fn last_rejected_at(&self) -> (t: Option<u64>)
        ensures
            t == self.last_rejected(),
    {
        self.last_rejected_at
    }

    /// No two clients share an id; this holds of every tracker.
    #[verifier::type_invariant]
    pub closed spec fn wf(&self) -> bool {
        forall|i: int, j: int|
            0 <= i < j < self.clients@.len() ==> #[trigger] self.clients@[i].id@ != #[trigger] self.clients@[j].id@
    }

    /// The client with an id, by its index.
    proof fn lemma_index(&self, i: int)
        requires
            self.wf(),
            0 <= i < self.clients@.len(),
        ensures
            self.view_clients().dom().contains(self.clients@[i].id@),
            self.view_clients()[self.clients@[i].id@] == client_view(self.clients@[i]),
    {
        let id = self.clients@[i].id@;
        assert(exists|k: int| 0 <= k < self.clients@.len() && self.clients@[k].id@ == id);
        let k = choose|k: int| 0 <= k < self.clients@.len() && self.clients@[k].id@ == id;
        if k != i {
            if k < i {
                assert(self.clients@[k].id@ != self.clients@[i].id@);
            } else {
                assert(self.clients@[i].id@ != self.clients@[k].id@);
            }
        }
    }

    /// No client and no refused pairing.
    pub fn new() -> (c: Connections)
        ensures
            c.wf(),
            c.view_clients() == Map::<Seq<char>, ClientView>::empty(),
            c.rejected() == 0,
            c.last_rejected() is None,
    {
        let c = Connections { clients: Vec::new(), rejected_pairings: 0, last_rejected_at: None };
        assert(c.view_clients() =~= Map::<Seq<char>, ClientView>::empty());
        c
    }

    /// The index of the client with an id.
    fn position(&self, id: &str) -> (r: Option<usize>)
        requires
            self.wf(),
        ensures
            r matches Some(i) ==> i < self.clients@.len() && self.clients@[i as int].id@ == id@,
            r is None ==> !self.view_clients().dom().contains(id@),
    {
        let mut i: usize = 0;
        while i < self.clients.len()
            invariant
                i <= self.clients@.len(),
                forall|k: int| 0 <= k < i ==> self.clients@[k].id@ != id@,
            decreases self.clients.len() - i,
        {
            if str_eq(self.clients[i].id.as_str(), id) {
                return Some(i);
            }
            i = i + 1;
        }
        None
    }

    /// The summary of the client with an id, if it is connected.
    pub fn client(&self, id: &str) -> (r: Option<ClientSummary>)
        ensures
            r is Some <==> self.view_clients().dom().contains(id@),
            r matches Some(c) ==> client_view(c) == self.view_clients()[id@] && c.id@ == id@,
    {
        proof {
            use_type_invariant(self);
        }
        match self.position(id) {
            Some(i) => {
                proof {
                    self.lemma_index(i as int);
                }
                let c = &self.clients[i];
                Some(
                    ClientSummary {
                        id: c.id.clone(),
                        name: c.name.clone(),
                        connected_at: c.connected_at,
                        last_input_at: c.last_input_at,
                        input_messages: c.input_messages,
                    },
                )
            },
            None => None,
        }
    }

    /// Replaces the client at an index, keeping its id.
    fn replace_at(&mut self, i: usize, c: ClientSummary)
        requires
            old(self).wf(),
            i < old(self).clients@.len(),
            c.id@ == old(self).clients@[i as int].id@,
        ensures
            final(self).wf(),
            final(self).rejected() == old(self).rejected(),
            final(self).last_rejected() == old(self).last_rejected(),
            final(self).view_clients() == old(self).view_clients().insert(c.id@, client_view(c)),
    {
        let ghost before = *self;
        let ghost cv = client_view(c);
        let ghost cid = c.id@;
        let mut items: Vec<ClientSummary> = Vec::new();
        std::mem::swap(&mut items, &mut self.clients);
        items.set(i, c);
        proof {
            let after = Connections {
                clients: items,
                rejected_pairings: before.rejected_pairings,
                last_rejected_at: before.last_rejected_at,
            };
            assert forall|a: int, b: int| 0 <= a < b < after.clients@.len() implies #[trigger] after.clients@[a].id@
                != #[trigger] after.clients@[b].id@ by {
                assert(before.clients@[a].id@ != before.clients@[b].id@);
            }
            assert(after.wf());
            assert forall|id: Seq<char>| #[trigger] after.view_clients().dom().contains(id) == before.view_clients().insert(
                cid,
                cv,
            ).dom().contains(id) by {
                if before.view_clients().dom().contains(id) {
                    let k = choose|k: int| 0 <= k < before.clients@.len() && before.clients@[k].id@ == id;
                    assert(after.clients@[k].id@ == id);
                }
                if after.view_clients().dom().contains(id) {
                    let k = choose|k: int| 0 <= k < after.clients@.len() && after.clients@[k].id@ == id;
                    assert(before.clients@[k].id@ == id);
                }
            }
            assert forall|id: Seq<char>| #[trigger] after.view_clients().dom().contains(id) implies after.view_clients()[id]
                == before.view_clients().insert(cid, cv)[id] by {
                let k = choose|k: int| 0 <= k < after.clients@.len() && after.clients@[k].id@ == id;
                after.lemma_index(k);
                if k != i {
                    before.lemma_index(k);
                }
            }
            assert(after.view_clients() =~= before.view_clients().insert(cid, cv));
        }
        self.clients = items;
    }

    /// A client that has just connected, at time `now`: unnamed, with no
    /// input yet; a client with the same id is replaced.
    pub fn add(&mut self, id: &str, now: u64)
        ensures
            final(self).wf(),
            final(self).rejected() == old(self).rejected(),
            final(self).last_rejected() == old(self).last_rejected(),
            final(self).view_clients() == old(self).view_clients().insert(
                id@,
                ClientView {
                    name: "Unnamed client"@,
                    connected_at: now,
                    last_input_at: None,
                    input_messages: 0,
                },
            ),
    {
        let fresh = ClientSummary {
            id: String::from_str(id),
            name: String::from_str("Unnamed client"),
            connected_at: now,
            last_input_at: None,
            input_messages: 0,
        };
        proof {
            use_type_invariant(&*self);
        }
        match self.position(id) {
            Some(i) => {
                self.replace_at(i, fresh);
            },
            None => {
                let ghost before = *self;
                let mut items: Vec<ClientSummary> = Vec::new();
                std::mem::swap(&mut items, &mut self.clients);
                items.push(fresh);
                proof {
                    let after = Connections {
                        clients: items,
                        rejected_pairings: before.rejected_pairings,
                        last_rejected_at: before.last_rejected_at,
                    };
                    let n = before.clients@.len() as int;
                    assert forall|a: int, b: int| 0 <= a < b < after.clients@.len() implies #[trigger] after.clients@[a].id@
                        != #[trigger] after.clients@[b].id@ by {
                        if b == n {
                            if before.clients@[a].id@ == id@ {
                                before.lemma_index(a);
                            }
                        }
                    }
                    let v = ClientView { name: "Unnamed client"@, connected_at: now, last_input_at: None, input_messages: 0 };
                    assert forall|x: Seq<char>| #[trigger] after.view_clients().dom().contains(x)
                        == before.view_clients().insert(id@, v).dom().contains(x) by {
                        if before.view_clients().dom().contains(x) {
                            let k = choose|k: int| 0 <= k < before.clients@.len() && before.clients@[k].id@ == x;
                            assert(after.clients@[k].id@ == x);
                        }
                        if after.view_clients().dom().contains(x) && x != id@ {
                            let k = choose|k: int| 0 <= k < after.clients@.len() && after.clients@[k].id@ == x;
                            assert(k < n);
                            assert(before.clients@[k].id@ == x);
                        }
                        if x == id@ {
                            assert(after.clients@[n].id@ == x);
                        }
                    }
                    assert forall|x: Seq<char>| #[trigger] after.view_clients().dom().contains(x) implies after.view_clients()[x]
                        == before.view_clients().insert(id@, v)[x] by {
                        let k = choose|k: int| 0 <= k < after.clients@.len() && after.clients@[k].id@ == x;
                        after.lemma_index(k);
                        if k < n {
                            before.lemma_index(k);
                        }
                    }
                    assert(after.view_clients() =~= before.view_clients().insert(id@, v));
                }
                self.clients = items;
            },
        }
    }

    /// Names a connected client after the name it announced, when that name
    /// keeps any character; an unknown id changes nothing.
    pub fn identify(&mut self, id: &str, name: &str)
        ensures
            final(self).wf(),
            final(self).rejected() == old(self).rejected(),
            final(self).last_rejected() == old(self).last_rejected(),
            (old(self).view_clients().dom().contains(id@) && client_name(name@).len() > 0) ==> final(self).view_clients()
                == old(self).view_clients().insert(
                id@,
                ClientView { name: client_name(name@), ..old(self).view_clients()[id@] },
            ),
            !(old(self).view_clients().dom().contains(id@) && client_name(name@).len() > 0) ==> final(self).view_clients()
                == old(self).view_clients(),
    {
        proof {
            use_type_invariant(&*self);
        }
        if let Some(i) = self.position(id) {
            let chars = chars_of(name);
            let mut kept: Vec<char> = Vec::new();
            let mut k: usize = 0;
            while k < chars.len() && kept.len() < CLIENT_NAME_LIMIT
                invariant
                    chars@ == name@,
                    k <= chars@.len(),
                    kept@.len() <= CLIENT_NAME_LIMIT,
                    kept@ == first_chars(drop_controls(chars@.subrange(0, k as int)), CLIENT_NAME_LIMIT as nat),
                    kept@.len() < CLIENT_NAME_LIMIT ==> kept@ == drop_controls(chars@.subrange(0, k as int)),
                decreases chars.len() - k,
            {
                let c = chars[k];
                let ghost p = chars@.subrange(0, k + 1);
                assert(p.drop_last() =~= chars@.subrange(0, k as int));
                let code: u32 = c as u32;
                if !(code <= 0x1f || (0x7f <= code && code <= 0x9f)) {
                    kept.push(c);
                }
                k = k + 1;
            }
            proof {
                lemma_first_chars_prefix(chars@, k as nat, kept@);
            }
            let trimmed = trim_chars(&kept);
            if trimmed.len() > 0 {
                proof {
                    self.lemma_index(i as int);
                }
                let c = &self.clients[i];
                let updated = ClientSummary {
                    id: c.id.clone(),
                    name: string_of(&trimmed),
                    connected_at: c.connected_at,
                    last_input_at: c.last_input_at,
                    input_messages: c.input_messages,
                };
                self.replace_at(i, updated);
            }
        }
    }

    /// Counts one input message of a connected client, received at `now`; an
    /// unknown id changes nothing.
    pub fn input(&mut self, id: &str, now: u64)
        requires
            old(self).view_clients().dom().contains(id@) ==> old(self).view_clients()[id@].input_messages < u64::MAX,
        ensures
            final(self).wf(),
            final(self).rejected() == old(self).rejected(),
            final(self).last_rejected() == old(self).last_rejected(),
            old(self).view_clients().dom().contains(id@) ==> final(self).view_clients() == old(self).view_clients().insert(
                id@,
                ClientView {
                    input_messages: (old(self).view_clients()[id@].input_messages + 1) as u64,
                    last_input_at: Some(now),
                    ..old(self).view_clients()[id@]
                },
            ),
            !old(self).view_clients().dom().contains(id@) ==> final(self).view_clients() == old(self).view_clients(),
    {
        proof {
            use_type_invariant(&*self);
        }
        if let Some(i) = self.position(id) {
            proof {
                self.lemma_index(i as int);
            }
            let c = &self.clients[i];
            let updated = ClientSummary {
                id: c.id.clone(),
                name: c.name.clone(),
                connected_at: c.connected_at,
                last_input_at: Some(now),
                input_messages: c.input_messages + 1,
            };
            self.replace_at(i, updated);
        }
    }

    /// Counts a refused pairing, at time `now`.
    pub fn reject(&mut self, now: u64)
        requires
            old(self).rejected() < u64::MAX,
        ensures
            final(self).rejected() == old(self).rejected() + 1,
            final(self).last_rejected() == Some(now),
            final(self).view_clients() == old(self).view_clients(),
            final(self).wf(),
    {
        proof {
            use_type_invariant(&*self);
        }
        self.rejected_pairings = self.rejected_pairings + 1;
        self.last_rejected_at = Some(now);
    }
}

/// Keeping characters until `n` are kept gives the first `n` of all kept characters.
proof fn lemma_first_chars_prefix(s: Seq<char>, k: nat, kept: Seq<char>)
    requires
        k <= s.len(),
        kept == first_chars(drop_controls(s.subrange(0, k as int)), CLIENT_NAME_LIMIT as nat),
        kept.len() <= CLIENT_NAME_LIMIT,
        k < s.len() ==> kept.len() == CLIENT_NAME_LIMIT,
    ensures
        kept == first_chars(drop_controls(s), CLIENT_NAME_LIMIT as nat),
    decreases s.len() - k,
{
    if k < s.len() {
        lemma_drop_controls_prefix(s, k as int);
    } else {
        assert(s.subrange(0, k as int) =~= s);
    }
}

/// Dropping control characters of a longer text keeps those of its prefix in front.
proof fn lemma_drop_controls_prefix(s: Seq<char>, k: int)
    requires
        0 <= k <= s.len(),
    ensures
        drop_controls(s.subrange(0, k)).len() <= drop_controls(s).len(),
        drop_controls(s).subrange(0, drop_controls(s.subrange(0, k)).len() as int) == drop_controls(s.subrange(0, k)),
    decreases s.len() - k,
{
    if k == s.len() {
        assert(s.subrange(0, k) =~= s);
    } else {
        lemma_drop_controls_prefix(s, k + 1);
        let p = s.subrange(0, k + 1);
        assert(p.drop_last() =~= s.subrange(0, k));
        let a = drop_controls(s.subrange(0, k));
        let b = drop_controls(p);
        assert(b.subrange(0, a.len() as int) =~= a);
        let d = drop_controls(s);
        assert(d.subrange(0, a.len() as int) =~= d.subrange(0, b.len() as int).subrange(0, a.len() as int));
    }
}

} // verus!
