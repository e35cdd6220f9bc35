//! Signal Guard: the save/restore protocol that keeps the host process's
//! signal dispositions intact across engine initialization.
//!
//! The engine installs its own handlers while it initializes. The guard
//! records the previous disposition of each signal in a fixed set — one
//! signal at a time, in a fixed order — lets initialization proceed, and
//! then restores every recorded disposition. Dispositions are opaque
//! descriptor tokens supplied by the shell that performs the actual swaps;
//! the library enforces the pairing and proves that restoring the backup
//! recovers the disposition of every signal in the set and touches no other.

use vstd::prelude::*;

verus! {

/// The signals whose dispositions the bridge claims responsibility for.
#[derive(Clone, Copy, Debug, PartialEq, Eq, Hash, Structural)]
pub enum Signal {
    /// Hangup.
    Hup,
    /// Keyboard interrupt.
    Interrupt,
    /// Quit from keyboard.
    Quit,
    /// Illegal instruction.
    Ill,
    /// Abort.
    Abort,
    /// Floating-point exception.
    Fpe,
    /// Invalid memory reference.
    Segv,
    /// Alarm clock.
    Alarm,
    /// Termination request.
    Term,
    /// Child stopped or terminated.
    Child,
    /// Bus error.
    Bus,
    /// Trace or breakpoint trap.
    Trap,
    /// Broken pipe.
    Pipe,
}

/// A distinct index for each signal, used to tell the variants apart.
pub open spec fn signal_index(s: Signal) -> int {
    match s {
        Signal::Hup => 0,
        Signal::Interrupt => 1,
        Signal::Quit => 2,
        Signal::Ill => 3,
        Signal::Abort => 4,
        Signal::Fpe => 5,
        Signal::Segv => 6,
        Signal::Alarm => 7,
        Signal::Term => 8,
        Signal::Child => 9,
        Signal::Bus => 10,
        Signal::Trap => 11,
        Signal::Pipe => 12,
    }
}

/// The fixed set of guarded signals, in the order they are saved.
pub open spec fn fixed_signal_seq() -> Seq<Signal> {
    seq![
        Signal::Hup,
        Signal::Interrupt,
        Signal::Quit,
        Signal::Ill,
        Signal::Abort,
        Signal::Fpe,
        Signal::Segv,
        Signal::Alarm,
        Signal::Term,
        Signal::Child,
        Signal::Bus,
        Signal::Trap,
        Signal::Pipe,
    ]
}

/// Every position of the fixed signal list carries the signal with that
/// index, so no signal occurs twice in it.
pub proof fn lemma_fixed_signals_distinct()
    ensures
        fixed_signal_seq().len() == 13,
        forall|i: int| 0 <= i < 13 ==> signal_index(#[trigger] fixed_signal_seq()[i]) == i,
{
    assert(fixed_signal_seq()[0] == Signal::Hup);
    assert(fixed_signal_seq()[1] == Signal::Interrupt);
    assert(fixed_signal_seq()[2] == Signal::Quit);
    assert(fixed_signal_seq()[3] == Signal::Ill);
    assert(fixed_signal_seq()[4] == Signal::Abort);
    assert(fixed_signal_seq()[5] == Signal::Fpe);
    assert(fixed_signal_seq()[6] == Signal::Segv);
    assert(fixed_signal_seq()[7] == Signal::Alarm);
    assert(fixed_signal_seq()[8] == Signal::Term);
    assert(fixed_signal_seq()[9] == Signal::Child);
    assert(fixed_signal_seq()[10] == Signal::Bus);
    assert(fixed_signal_seq()[11] == Signal::Trap);
    assert(fixed_signal_seq()[12] == Signal::Pipe);
}

/// Builds the fixed signal list, in save order.
pub fn fixed_signal_set() -> (r: Vec<Signal>)
    ensures
        r@ == fixed_signal_seq(),
{
    let mut r: Vec<Signal> = Vec::new();
    r.push(Signal::Hup);
    r.push(Signal::Interrupt);
    r.push(Signal::Quit);
    r.push(Signal::Ill);
    r.push(Signal::Abort);
    r.push(Signal::Fpe);
    r.push(Signal::Segv);
    r.push(Signal::Alarm);
    r.push(Signal::Term);
    r.push(Signal::Child);
    r.push(Signal::Bus);
    r.push(Signal::Trap);
    r.push(Signal::Pipe);
    proof {
        assert(r@ =~= fixed_signal_seq());
    }
    r
}

/// What the guard's save pass installs in place of each saved disposition.
#[derive(Clone, Copy, Debug, PartialEq, Eq, Structural)]
pub enum ReplacementDisposition {
    /// The platform's default handling for the signal.
    SystemDefault,
}

/// The disposition the save pass swaps in while it records the previous
/// one: always the platform's default handling. The engine overwrites it
/// during initialization anyway, and the restore pass puts the saved
/// disposition back.
pub fn replacement_disposition() -> (r: ReplacementDisposition)
    ensures
        r is SystemDefault,
{
    ReplacementDisposition::SystemDefault
}

/// The save/restore context: previously-installed disposition descriptors,
/// recorded in the fixed order. Populated before initialization, consumed
/// by the restore pass afterwards.
pub struct SignalBackup {
    /// The recorded `(signal, previous disposition)` pairs, in save order.
    pub entries: Vec<(Signal, u64)>,
}

impl SignalBackup {
    /// The backup records a prefix of the fixed signal list, in order.
    pub open spec fn wf(&self) -> bool {
        &&& self.entries@.len() <= fixed_signal_seq().len()
        &&& forall|i: int| 0 <= i < self.entries@.len() ==> (#[trigger] self.entries@[i]).0
            == fixed_signal_seq()[i]
    }

    /// Starts an empty backup.
    pub fn new() -> (r: Self)
        ensures
            r.wf(),
            r.entries@.len() == 0,
    {
        SignalBackup { entries: Vec::new() }
    }

    /// The signal whose disposition must be saved next, or nothing once the
    /// whole fixed set has been recorded.
    pub fn pending(&self) -> (r: Option<Signal>)
        requires
            self.wf(),
        ensures
            self.entries@.len() < fixed_signal_seq().len() ==> r == Some(
                fixed_signal_seq()[self.entries@.len() as int],
            ),
            self.entries@.len() == fixed_signal_seq().len() ==> r is None,
    {
        let order = fixed_signal_set();
        if self.entries.len() < order.len() {
            Some(order[self.entries.len()])
        } else {
            None
        }
    }

    /// Records the previous disposition of the next signal in the fixed
    /// order.
    pub fn record(&mut self, sig: Signal, previous: u64)
        requires
            old(self).wf(),
            old(self).entries@.len() < fixed_signal_seq().len(),
            sig == fixed_signal_seq()[old(self).entries@.len() as int],
        ensures
            final(self).wf(),
            final(self).entries@ == old(self).entries@.push((sig, previous)),
    {
        self.entries.push((sig, previous));
    }

    /// True once every signal of the fixed set has been recorded.
    pub fn is_complete(&self) -> (r: bool)
        ensures
            r <==> self.entries@.len() == fixed_signal_seq().len(),
    {
        self.entries.len() == 13
    }

    /// The recorded pairs, in the order in which they are to be restored.
    pub fn restore_entries(&self) -> (r: &Vec<(Signal, u64)>)
        requires
            self.wf(),
        ensures
            r@ == self.entries@,
    {
        &self.entries
    }
}

/// The disposition table that results from installing each recorded pair in
/// order, last write winning.
pub open spec fn apply_entries(d: Map<Signal, u64>, es: Seq<(Signal, u64)>) -> Map<Signal, u64>
    decreases es.len(),
{
    if es.len() == 0 {
        d
    } else {
        apply_entries(d.insert(es[0].0, es[0].1), es.drop_first())
    }
}

/// Installing entries none of which names `s` leaves `s` untouched.
proof fn lemma_apply_entries_absent(d: Map<Signal, u64>, es: Seq<(Signal, u64)>, s: Signal)
    requires
        forall|i: int| 0 <= i < es.len() ==> (#[trigger] es[i]).0 != s,
    ensures
        apply_entries(d, es).dom().contains(s) == d.dom().contains(s),
        d.dom().contains(s) ==> apply_entries(d, es)[s] == d[s],
    decreases es.len(),
{
    if es.len() > 0 {
        assert(forall|i: int| 0 <= i < es.drop_first().len() ==> (#[trigger] es.drop_first()[
            i
        ]).0 != s);
        lemma_apply_entries_absent(d.insert(es[0].0, es[0].1), es.drop_first(), s);
    }
}

/// If no later entry names the same signal as entry `i`, the installed table
/// maps that signal to entry `i`'s disposition.
proof fn lemma_apply_entries_last_write(d: Map<Signal, u64>, es: Seq<(Signal, u64)>, i: int)
    requires
        0 <= i < es.len(),
        forall|j: int| i < j < es.len() ==> (#[trigger] es[j]).0 != es[i].0,
    ensures
        apply_entries(d, es).dom().contains(es[i].0),
        apply_entries(d, es)[es[i].0] == es[i].1,
    decreases es.len(),
{
    if i == 0 {
        assert(forall|k: int| 0 <= k < es.drop_first().len() ==> (#[trigger] es.drop_first()[
            k
        ]).0 != es[0].0);
        lemma_apply_entries_absent(d.insert(es[0].0, es[0].1), es.drop_first(), es[0].0);
    } else {
        assert(es.drop_first()[i - 1] == es[i]);
        assert(forall|j: int| i - 1 < j < es.drop_first().len() ==> (#[trigger] es.drop_first()[
            j
        ]).0 != es.drop_first()[i - 1].0);
        lemma_apply_entries_last_write(d.insert(es[0].0, es[0].1), es.drop_first(), i - 1);
    }
}

/// Law: a guarded initialization preserves the host's signal dispositions.
/// `before` is the disposition table when the guard started; the backup
/// recorded, for each signal of the fixed set in order, its disposition in
/// `before`; `during` is whatever table the engine left behind. Restoring
/// the backup returns every signal of the fixed set to its disposition in
/// `before` — whether or not initialization succeeded — and leaves every
/// signal outside the set exactly as the engine left it.
pub proof fn lemma_restore_recovers_dispositions(
    before: Map<Signal, u64>,
    during: Map<Signal, u64>,
    b: SignalBackup,
)
    requires
        b.wf(),
        b.entries@.len() == fixed_signal_seq().len(),
        forall|i: int| 0 <= i < b.entries@.len() ==> before.dom().contains(
            (#[trigger] b.entries@[i]).0,
        ) && b.entries@[i].1 == before[b.entries@[i].0],
    ensures
        forall|s: Signal| #[trigger] fixed_signal_seq().contains(s) ==> apply_entries(
            during,
            b.entries@,
        ).dom().contains(s) && apply_entries(during, b.entries@)[s] == before[s],
        forall|s: Signal| !(#[trigger] fixed_signal_seq().contains(s)) ==> apply_entries(
            during,
            b.entries@,
        ).dom().contains(s) == during.dom().contains(s) && (during.dom().contains(s)
            ==> apply_entries(during, b.entries@)[s] == during[s]),
{
    lemma_fixed_signals_distinct();
    assert forall|s: Signal| #[trigger] fixed_signal_seq().contains(s) implies apply_entries(
        during,
        b.entries@,
    ).dom().contains(s) && apply_entries(during, b.entries@)[s] == before[s] by {
        let i = choose|i: int|
            0 <= i < fixed_signal_seq().len() && fixed_signal_seq()[i] == s;
        assert(b.entries@[i].0 == s);
        assert(forall|j: int| i < j < b.entries@.len() ==> (#[trigger] b.entries@[j]).0 != s);
        lemma_apply_entries_last_write(during, b.entries@, i);
    }
    assert forall|s: Signal| !(#[trigger] fixed_signal_seq().contains(s)) implies apply_entries(
        during,
        b.entries@,
    ).dom().contains(s) == during.dom().contains(s) && (during.dom().contains(s)
        ==> apply_entries(during, b.entries@)[s] == during[s]) by {
        assert(forall|i: int| 0 <= i < b.entries@.len() ==> (#[trigger] b.entries@[i]).0 != s);
        lemma_apply_entries_absent(during, b.entries@, s);
    }
}

} // verus!
