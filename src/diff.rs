use vstd::prelude::*;
use crate::keys::LogicalKey;
use crate::keyset::KeySet;

verus! {

broadcast use vstd::seq_lib::group_seq_properties;

/// One operation on the virtual keyboard.
#[derive(Clone, Copy, Debug, PartialEq, Eq, Structural)]
pub enum Command {
    Press(LogicalKey),
    Release(LogicalKey),
    Synchronize,
}

/// The keys that `cmds` releases.
pub open spec fn released(cmds: Seq<Command>) -> Set<LogicalKey> {
    Set::new(|k: LogicalKey| cmds.contains(Command::Release(k)))
}

/// The keys that `cmds` presses.
pub open spec fn pressed(cmds: Seq<Command>) -> Set<LogicalKey> {
    Set::new(|k: LogicalKey| cmds.contains(Command::Press(k)))
}

/// No press comes before a release.
pub open spec fn releases_first(cmds: Seq<Command>) -> bool {
    forall|i: int, j: int|
        0 <= i < j < cmds.len() && #[trigger] cmds[i] is Press ==> !(#[trigger] cmds[j] is Release)
}

/// The batch ends with the one synchronize that it holds.
pub open spec fn synchronized_once(cmds: Seq<Command>) -> bool {
    &&& cmds.len() > 0
    &&& cmds.last() == Command::Synchronize
    &&& forall|i: int| 0 <= i < cmds.len() - 1 ==> !(#[trigger] cmds[i] is Synchronize)
}

/// `cmds` takes the host from holding `previous` to holding `next`: each key
/// of `previous` that `next` lacks is released once, then each key of `next`
/// that `previous` lacks is pressed once, then one synchronize follows.
pub open spec fn is_transition(cmds: Seq<Command>, previous: Set<LogicalKey>, next: Set<LogicalKey>) -> bool {
    &&& released(cmds) == previous.difference(next)
    &&& pressed(cmds) == next.difference(previous)
    &&& cmds.no_duplicates()
    &&& releases_first(cmds)
    &&& synchronized_once(cmds)
}

/// The commands that move the host from the keys of `previous` to those of
/// `next`: releases, then presses, then one synchronize.
pub fn diff(previous: &KeySet, next: &KeySet) -> (cmds: Vec<Command>)
    requires
        previous.wf(),
        next.wf(),
    ensures
        is_transition(cmds@, previous@, next@),
{
    let mut cmds: Vec<Command> = Vec::new();
    let mut i: usize = 0;
    while i < previous.len()
        invariant
            previous.wf(),
            i <= previous.elems().len(),
            forall|j: int| 0 <= j < cmds@.len() ==> #[trigger] cmds@[j] is Release,
            cmds@.no_duplicates(),
            forall|k: LogicalKey|
                #![trigger cmds@.contains(Command::Release(k))]
                #![trigger previous.elems().take(i as int).contains(k)]
                cmds@.contains(Command::Release(k)) <==> previous.elems().take(i as int).contains(k)
                    && !next@.contains(k),
        decreases previous.elems().len() - i,
    {
        let k = previous.get(i);
        assert(previous.elems().take(i + 1) =~= previous.elems().take(i as int).push(k));
        if !next.contains(k) {
            assert(!previous.elems().take(i as int).contains(k));
            cmds.push(Command::Release(k));
        }
        i = i + 1;
    }
    assert(previous.elems().take(i as int) =~= previous.elems());
    assert(released(cmds@) =~= previous@.difference(next@));
    let n_released: Ghost<int> = Ghost(cmds@.len() as int);
    let mut i: usize = 0;
    while i < next.len()
        invariant
            next.wf(),
            i <= next.elems().len(),
            0 <= n_released@ <= cmds@.len(),
            forall|j: int| 0 <= j < n_released@ ==> #[trigger] cmds@[j] is Release,
            forall|j: int| n_released@ <= j < cmds@.len() ==> #[trigger] cmds@[j] is Press,
            cmds@.no_duplicates(),
            released(cmds@) == previous@.difference(next@),
            forall|k: LogicalKey|
                #![trigger cmds@.contains(Command::Press(k))]
                #![trigger next.elems().take(i as int).contains(k)]
                cmds@.contains(Command::Press(k)) <==> next.elems().take(i as int).contains(k)
                    && !previous@.contains(k),
        decreases next.elems().len() - i,
    {
        let k = next.get(i);
        assert(next.elems().take(i + 1) =~= next.elems().take(i as int).push(k));
        if !previous.contains(k) {
            assert(!next.elems().take(i as int).contains(k));
            cmds.push(Command::Press(k));
            assert(released(cmds@) =~= previous@.difference(next@));
        }
        i = i + 1;
    }
    assert(next.elems().take(i as int) =~= next.elems());
    assert(pressed(cmds@) =~= next@.difference(previous@));
    assert(!cmds@.contains(Command::Synchronize));
    cmds.push(Command::Synchronize);
    assert(released(cmds@) =~= previous@.difference(next@));
    assert(pressed(cmds@) =~= next@.difference(previous@));
    cmds
}

} // verus!
