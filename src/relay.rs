use vstd::prelude::*;
use crate::diff::{diff, is_transition, Command};
use crate::keys::LogicalKey;
use crate::keyset::KeySet;
use crate::report::{decode_into, decoded_keys};

verus! {

/// What the report processor holds, seen abstractly: the keys that the host
/// holds down and the last report that was acted on.
pub struct RelayState {
    pub held: Set<LogicalKey>,
    pub last_seen: Option<Seq<u8>>,
}

/// The held keys are those of the last report acted on.
pub open spec fn consistent(s: RelayState) -> bool {
    s.last_seen matches Some(r) ==> s.held == decoded_keys(r)
}

/// Processing `report` in state `s` gives state `s2` and commands `cmds`: a
/// repeat of the last report does nothing; any other report moves the host to
/// its key set and becomes the last report.
pub open spec fn process_step(s: RelayState, report: Seq<u8>, s2: RelayState, cmds: Seq<Command>) -> bool {
    if s.last_seen == Some(report) {
        s2 == s && cmds.len() == 0
    } else {
        &&& s2 == RelayState { held: decoded_keys(report), last_seen: Some(report) }
        &&& is_transition(cmds, s.held, decoded_keys(report))
    }
}

/// The per-connection state of report processing: the held key set, a spare
/// set that the next report is decoded into, and the last report seen.
pub struct KeyProcessor {
    previous: KeySet,
    next: KeySet,
    last_seen: Option<Vec<u8>>,
}

impl View for KeyProcessor {
    type V = RelayState;

    closed spec fn view(&self) -> RelayState {
        RelayState {
            held: self.previous@,
            last_seen: match self.last_seen {
                Some(v) => Some(v@),
                None => None,
            },
        }
    }
}

/// Whether two byte strings are equal.
fn same_bytes(a: &[u8], b: &[u8]) -> (r: bool)
    ensures
        r == (a@ == b@),
{
    if a.len() != b.len() {
        return false;
    }
    let mut i: usize = 0;
    while i < a.len()
        invariant
            a@.len() == b@.len(),
            i <= a@.len(),
            forall|j: int| 0 <= j < i ==> a@[j] == b@[j],
        decreases a@.len() - i,
    {
        if a[i] != b[i] {
            return false;
        }
        i = i + 1;
    }
    assert(a@ =~= b@);
    true
}

impl KeyProcessor {
    pub closed spec fn wf(&self) -> bool {
        &&& self.previous.wf()
        &&& self.next.wf()
        &&& consistent(self@)
    }

    /// The state at the start of a connection: no key held, no report seen.
    pub fn new() -> (r: KeyProcessor)
        ensures
            r.wf(),
            r@ == (RelayState { held: Set::empty(), last_seen: None }),
    {
        KeyProcessor { previous: KeySet::new(), next: KeySet::new(), last_seen: None }
    }

    /// Acts on one report: unless it repeats the last one, decodes it, returns
    /// the releases, presses and synchronize that bring the host to its key
    /// set, and keeps that set as the held one.
    pub fn process(&mut self, report: &[u8]) -> (cmds: Vec<Command>)
        requires
            old(self).wf(),
        ensures
            final(self).wf(),
            process_step(old(self)@, report@, final(self)@, cmds@),
    {
        let repeated = match &self.last_seen {
            Some(last) => same_bytes(last.as_slice(), report),
            None => false,
        };
        if repeated {
            return Vec::new();
        }
        decode_into(report, &mut self.next);
        let cmds = diff(&self.previous, &self.next);
        std::mem::swap(&mut self.previous, &mut self.next);
        self.last_seen = Some(vstd::slice::slice_to_vec(report));
        cmds
    }

    /// The keys that the host holds down, in storage order.
    pub fn held_keys(&self) -> (r: Vec<LogicalKey>)
        ensures
            r@.to_set() == self@.held,
    {
        self.previous.to_vec()
    }
}

/// A report that arrives twice in a row has no effect the second time: no
/// command is sent and the state stays as it is.
pub proof fn lemma_repeated_report_is_silent(
    s0: RelayState,
    report: Seq<u8>,
    s1: RelayState,
    c1: Seq<Command>,
    s2: RelayState,
    c2: Seq<Command>,
)
    requires
        process_step(s0, report, s1, c1),
        process_step(s1, report, s2, c2),
    ensures
        c2.len() == 0,
        s2 == s1,
{
}

/// After any report, the held set is the key set of that report, which is
/// what the next report is diffed against.
pub proof fn lemma_held_follows_report(s0: RelayState, report: Seq<u8>, s1: RelayState, c1: Seq<Command>)
    requires
        consistent(s0),
        process_step(s0, report, s1, c1),
    ensures
        s1.held == decoded_keys(report),
        s1.last_seen == Some(report),
        consistent(s1),
{
}

} // verus!
