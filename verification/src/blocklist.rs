//! The blocklist: fingerprints that a merchant has barred, and the guard
//! that looks candidates up in it before an attempt is created.
//!
//! The guard matches exactly; it does not score or guess.

use vstd::prelude::*;
use crate::text::same_text;

verus! {

/// What a fingerprint was derived from.
#[derive(Debug, Clone, Copy, PartialEq, Eq, Hash, Structural)]
pub enum FingerprintKind {
    CardNumber,
    Email,
    Ip,
}

/// A fingerprint derived from a payment about to be attempted.
#[derive(Debug, PartialEq, Eq)]
pub struct Fingerprint {
    pub kind: FingerprintKind,
    pub value: String,
}

/// A fingerprint that a merchant has barred.
#[derive(Debug, PartialEq, Eq)]
pub struct BlocklistEntry {
    pub merchant_id: u64,
    pub fingerprint: String,
    pub fingerprint_kind: FingerprintKind,
    pub created_at: u64,
}

impl Clone for BlocklistEntry {
    fn clone(&self) -> (r: Self)
        ensures
            r == *self,
    {
        BlocklistEntry {
            merchant_id: self.merchant_id,
            fingerprint: self.fingerprint.clone(),
            fingerprint_kind: self.fingerprint_kind,
            created_at: self.created_at,
        }
    }
}

impl BlocklistEntry {
    /// Whether this entry bars the fingerprint `value` of kind `kind` for
    /// `merchant_id`.
    pub open spec fn bars(&self, merchant_id: u64, kind: FingerprintKind, value: Seq<char>) -> bool {
        self.merchant_id == merchant_id && self.fingerprint_kind == kind && self.fingerprint@
            == value
    }
}

/// Whether a merchant's guard is switched on. A merchant without a
/// configuration has it switched off.
#[derive(Debug, Clone, Copy, PartialEq, Eq, Structural)]
pub struct BlocklistGuardConfig {
    pub merchant_id: u64,
    pub enabled: bool,
}

/// The rejection of an attempt before its creation, with the kind of the
/// fingerprint that is barred.
#[derive(Debug, Clone, Copy, PartialEq, Eq, Structural)]
pub struct Blocked {
    pub fingerprint_kind: FingerprintKind,
}

/// Why the blocklist was not changed.
#[derive(Debug, Clone, Copy, PartialEq, Eq, Structural)]
pub enum BlocklistError {
    /// The fingerprint is already barred for the merchant.
    AlreadyBlocked,
    /// The fingerprint is not barred for the merchant.
    NotBlocked,
}

/// What a blocklist holds: the barred fingerprints, in the order in which
/// they were barred, and the guard configurations.
pub struct BlocklistView {
    pub entries: Seq<BlocklistEntry>,
    pub guards: Seq<BlocklistGuardConfig>,
}

/// No fingerprint is barred twice for one merchant.
pub open spec fn distinct_entries(entries: Seq<BlocklistEntry>) -> bool {
    forall|i: int, j: int|
        0 <= i < j < entries.len() ==> !(#[trigger] entries[i]).bars(
            (#[trigger] entries[j]).merchant_id,
            entries[j].fingerprint_kind,
            entries[j].fingerprint@,
        )
}

/// No merchant has two guard configurations.
pub open spec fn distinct_guards(guards: Seq<BlocklistGuardConfig>) -> bool {
    forall|i: int, j: int|
        0 <= i < j < guards.len() ==> (#[trigger] guards[i]).merchant_id != (
        #[trigger] guards[j]).merchant_id
}

/// Whether the fingerprint `value` of kind `kind` is barred for
/// `merchant_id` among `entries`.
pub open spec fn barred(
    entries: Seq<BlocklistEntry>,
    merchant_id: u64,
    kind: FingerprintKind,
    value: Seq<char>,
) -> bool {
    exists|i: int| 0 <= i < entries.len() && (#[trigger] entries[i]).bars(merchant_id, kind, value)
}

/// Whether one of `guards` is the guard of `merchant_id`, switched on.
pub open spec fn guard_on(guards: Seq<BlocklistGuardConfig>, merchant_id: u64) -> bool {
    exists|i: int|
        0 <= i < guards.len() && (#[trigger] guards[i]).merchant_id == merchant_id
            && guards[i].enabled
}

impl BlocklistView {
    /// No fingerprint is barred twice for one merchant, and no merchant has
    /// two guard configurations.
    pub open spec fn distinct(self) -> bool {
        distinct_entries(self.entries) && distinct_guards(self.guards)
    }

    /// Whether the fingerprint `value` of kind `kind` is barred for
    /// `merchant_id`.
    pub open spec fn holds(self, merchant_id: u64, kind: FingerprintKind, value: Seq<char>) -> bool {
        barred(self.entries, merchant_id, kind, value)
    }

    /// Whether the guard of `merchant_id` is switched on.
    pub open spec fn guard_enabled(self, merchant_id: u64) -> bool {
        guard_on(self.guards, merchant_id)
    }

    /// The kind of the first of `candidates` that is barred for
    /// `merchant_id`, if any is.
    pub open spec fn first_barred(self, merchant_id: u64, candidates: Seq<Fingerprint>) -> Option<
        FingerprintKind,
    >
        decreases candidates.len(),
    {
        if candidates.len() == 0 {
            None
        } else if self.holds(merchant_id, candidates[0].kind, candidates[0].value@) {
            Some(candidates[0].kind)
        } else {
            self.first_barred(merchant_id, candidates.drop_first())
        }
    }

    /// What the guard decides for a payment of `merchant_id` with these
    /// candidate fingerprints: nothing if the guard is switched off, else
    /// the kind of the first candidate that is barred, if any is.
    pub open spec fn rejection(self, merchant_id: u64, candidates: Seq<Fingerprint>) -> Option<
        Blocked,
    > {
        if !self.guard_enabled(merchant_id) {
            None
        } else {
            match self.first_barred(merchant_id, candidates) {
                Some(kind) => Some(Blocked { fingerprint_kind: kind }),
                None => None,
            }
        }
    }
}

/// The barred fingerprints and the guard configurations of all merchants.
/// No fingerprint is barred twice for one merchant, and no merchant has two
/// guard configurations.
pub struct Blocklist {
    entries: Vec<BlocklistEntry>,
    guards: Vec<BlocklistGuardConfig>,
}

impl View for Blocklist {
    type V = BlocklistView;

    closed spec fn view(&self) -> BlocklistView {
        BlocklistView { entries: self.entries@, guards: self.guards@ }
    }
}

/// The place in `entries` of the entry that bars the fingerprint, if it is
/// barred.
fn place_of(entries: &Vec<BlocklistEntry>, merchant_id: u64, kind: FingerprintKind, value: &str) -> (r:
    Option<usize>)
    ensures
        match r {
            Some(i) => i < entries@.len() && entries@[i as int].bars(merchant_id, kind, value@)
                && forall|j: int|
                0 <= j < i ==> !(#[trigger] entries@[j]).bars(merchant_id, kind, value@),
            None => forall|j: int|
                0 <= j < entries@.len() ==> !(#[trigger] entries@[j]).bars(merchant_id, kind, value@),
        },
{
    let mut i: usize = 0;
    while i < entries.len()
        invariant
            i <= entries@.len(),
            forall|j: int| 0 <= j < i ==> !(#[trigger] entries@[j]).bars(merchant_id, kind, value@),
        decreases entries@.len() - i,
    {
        let entry = &entries[i];
        if entry.merchant_id == merchant_id && entry.fingerprint_kind == kind && same_text(
            entry.fingerprint.as_str(),
            value,
        ) {
            return Some(i);
        }
        i += 1;
    }
    None
}

impl Blocklist {
    #[verifier::type_invariant]
    spec fn inv(&self) -> bool {
        distinct_entries(self.entries@) && distinct_guards(self.guards@)
    }

    /// An empty blocklist: nothing is barred, and every guard is off.
    pub fn new() -> (r: Blocklist)
        ensures
            r@.entries.len() == 0,
            r@.guards.len() == 0,
    {
        Blocklist { entries: Vec::new(), guards: Vec::new() }
    }

    /// The barred fingerprints, in the order in which they were barred.
    pub fn entries(&self) -> (r: &Vec<BlocklistEntry>)
        ensures
            r@ == self@.entries,
            self@.distinct(),
    {
        proof {
            use_type_invariant(self);
        }
        &self.entries
    }

    /// The guard configurations, one for each merchant that ever switched
    /// its guard.
    pub fn guards(&self) -> (r: &Vec<BlocklistGuardConfig>)
        ensures
            r@ == self@.guards,
            self@.distinct(),
    {
        proof {
            use_type_invariant(self);
        }
        &self.guards
    }

    /// The place of the entry that bars the fingerprint, if it is barred.
    pub fn position(&self, merchant_id: u64, kind: FingerprintKind, value: &str) -> (r: Option<usize>)
        ensures
            match r {
                Some(i) => i < self@.entries.len() && self@.entries[i as int].bars(
                    merchant_id,
                    kind,
                    value@,
                ),
                None => !self@.holds(merchant_id, kind, value@),
            },
    {
        place_of(&self.entries, merchant_id, kind, value)
    }

    /// Whether the fingerprint is barred for the merchant.
    pub fn is_blocked(&self, merchant_id: u64, kind: FingerprintKind, value: &str) -> (r: bool)
        ensures
            r == self@.holds(merchant_id, kind, value@),
    {
        self.position(merchant_id, kind, value).is_some()
    }

    /// Whether the guard of `merchant_id` is switched on.
    pub fn is_guard_enabled(&self, merchant_id: u64) -> (r: bool)
        ensures
            r == self@.guard_enabled(merchant_id),
    {
        let mut i: usize = 0;
        while i < self.guards.len()
            invariant
                i <= self.guards@.len(),
                self@.guards == self.guards@,
                forall|j: int|
                    0 <= j < i ==> !((#[trigger] self.guards@[j]).merchant_id == merchant_id
                        && self.guards@[j].enabled),
            decreases self.guards@.len() - i,
        {
            if self.guards[i].merchant_id == merchant_id && self.guards[i].enabled {
                return true;
            }
            i += 1;
        }
        false
    }

    /// The guard's check before an attempt is created: if the merchant's
    /// guard is switched on and one of the candidates is barred for the
    /// merchant, the payment is rejected with the kind of the first such
    /// candidate. With the guard switched off nothing is rejected.
    pub fn screen(&self, merchant_id: u64, candidates: &Vec<Fingerprint>) -> (r: Result<(), Blocked>)
        ensures
            r == match self@.rejection(merchant_id, candidates@) {
                Some(blocked) => Err::<(), Blocked>(blocked),
                None => Ok::<(), Blocked>(()),
            },
    {
        if !self.is_guard_enabled(merchant_id) {
            return Ok(());
        }
        let mut i: usize = 0;
        assert(candidates@.skip(0) == candidates@);
        while i < candidates.len()
            invariant
                i <= candidates@.len(),
                self@.guard_enabled(merchant_id),
                self@.first_barred(merchant_id, candidates@) == self@.first_barred(
                    merchant_id,
                    candidates@.skip(i as int),
                ),
            decreases candidates@.len() - i,
        {
            let candidate = &candidates[i];
            proof {
                let left = candidates@.skip(i as int);
                assert(left[0] == candidates@[i as int]);
                assert(left.drop_first() == candidates@.skip(i + 1));
            }
            if self.is_blocked(merchant_id, candidate.kind, candidate.value.as_str()) {
                return Err(Blocked { fingerprint_kind: candidate.kind });
            }
            i += 1;
        }
        Ok(())
    }
}

/// Bars a fingerprint for a merchant. A fingerprint that is already barred
/// for the merchant is refused, and the blocklist stays as it was.
pub fn add_entry_to_blocklist(
    blocklist: &mut Blocklist,
    merchant_id: u64,
    kind: FingerprintKind,
    fingerprint: String,
    now: u64,
) -> (r: Result<(), BlocklistError>)
    ensures
        final(blocklist)@.guards == old(blocklist)@.guards,
        match r {
            Ok(()) => {
                &&& !old(blocklist)@.holds(merchant_id, kind, fingerprint@)
                &&& final(blocklist)@.entries == old(blocklist)@.entries.push(
                    BlocklistEntry {
                        merchant_id,
                        fingerprint,
                        fingerprint_kind: kind,
                        created_at: now,
                    },
                )
            },
            Err(error) => {
                &&& error == BlocklistError::AlreadyBlocked
                &&& old(blocklist)@.holds(merchant_id, kind, fingerprint@)
                &&& final(blocklist)@ == old(blocklist)@
            },
        },
{
    proof {
        use_type_invariant(&*blocklist);
    }
    if blocklist.is_blocked(merchant_id, kind, fingerprint.as_str()) {
        return Err(BlocklistError::AlreadyBlocked);
    }
    assert(blocklist@.entries == blocklist.entries@);
    let mut entries: Vec<BlocklistEntry> = Vec::new();
    std::mem::swap(&mut entries, &mut blocklist.entries);
    let ghost before = entries@;
    entries.push(BlocklistEntry { merchant_id, fingerprint, fingerprint_kind: kind, created_at: now });
    proof {
        let after = entries@;
        assert forall|a: int, b: int| 0 <= a < b < after.len() implies !(#[trigger] after[a]).bars(
            (#[trigger] after[b]).merchant_id,
            after[b].fingerprint_kind,
            after[b].fingerprint@,
        ) by {
            assert(after[a] == before[a]);
            if b < before.len() {
                assert(after[b] == before[b]);
            }
        }
    }
    blocklist.entries = entries;
    Ok(())
}

/// Lifts the bar on a fingerprint for a merchant, and returns the entry
/// that barred it. A fingerprint that is not barred for the merchant is
/// refused, and the blocklist stays as it was.
pub fn remove_entry_from_blocklist(
    blocklist: &mut Blocklist,
    merchant_id: u64,
    kind: FingerprintKind,
    fingerprint: &str,
) -> (r: Result<BlocklistEntry, BlocklistError>)
    ensures
        final(blocklist)@.guards == old(blocklist)@.guards,
        match r {
            Ok(entry) => {
                &&& entry.bars(merchant_id, kind, fingerprint@)
                &&& exists|i: int|
                    0 <= i < old(blocklist)@.entries.len() && #[trigger] old(blocklist)@.entries[i]
                        == entry && final(blocklist)@.entries == old(blocklist)@.entries.remove(i)
            },
            Err(error) => {
                &&& error == BlocklistError::NotBlocked
                &&& !old(blocklist)@.holds(merchant_id, kind, fingerprint@)
                &&& final(blocklist)@ == old(blocklist)@
            },
        },
        !final(blocklist)@.holds(merchant_id, kind, fingerprint@),
{
    proof {
        use_type_invariant(&*blocklist);
    }
    let mut entries: Vec<BlocklistEntry> = Vec::new();
    std::mem::swap(&mut entries, &mut blocklist.entries);
    let ghost before = entries@;
    let r = match place_of(&entries, merchant_id, kind, fingerprint) {
        None => Err(BlocklistError::NotBlocked),
        Some(i) => {
            let entry = entries.remove(i);
            proof {
                let after = entries@;
                assert forall|j: int| 0 <= j < after.len() implies !(#[trigger] after[j]).bars(
                    merchant_id,
                    kind,
                    fingerprint@,
                ) by {
                    if j < i {
                        assert(after[j] == before[j]);
                    } else {
                        assert(after[j] == before[j + 1]);
                    }
                }
                assert forall|a: int, b: int| 0 <= a < b < after.len() implies !(
                #[trigger] after[a]).bars(
                    (#[trigger] after[b]).merchant_id,
                    after[b].fingerprint_kind,
                    after[b].fingerprint@,
                ) by {
                    let a0 = if a < i { a } else { a + 1 };
                    let b0 = if b < i { b } else { b + 1 };
                    assert(after[a] == before[a0]);
                    assert(after[b] == before[b0]);
                }
            }
            Ok(entry)
        },
    };
    blocklist.entries = entries;
    assert(r is Err ==> blocklist@ == old(blocklist)@);
    assert(r is Ok ==> old(blocklist)@.entries == before);
    r
}

/// The fingerprints of one kind that are barred for a merchant, in the
/// order in which they were barred.
pub fn list_blocklist_entries(blocklist: &Blocklist, merchant_id: u64, kind: FingerprintKind) -> (r:
    Vec<BlocklistEntry>)
    ensures
        r@ == blocklist@.entries.filter(
            |e: BlocklistEntry| e.merchant_id == merchant_id && e.fingerprint_kind == kind,
        ),
{
    let mut found: Vec<BlocklistEntry> = Vec::new();
    let ghost wanted = |e: BlocklistEntry| e.merchant_id == merchant_id && e.fingerprint_kind == kind;
    let mut i: usize = 0;
    assert(blocklist.entries@.take(0).filter(wanted) == Seq::<BlocklistEntry>::empty()) by {
        assert(blocklist.entries@.take(0) == Seq::<BlocklistEntry>::empty());
        reveal_with_fuel(Seq::filter, 1);
    }
    while i < blocklist.entries.len()
        invariant
            i <= blocklist.entries@.len(),
            wanted == |e: BlocklistEntry| e.merchant_id == merchant_id && e.fingerprint_kind == kind,
            found@ == blocklist.entries@.take(i as int).filter(wanted),
        decreases blocklist.entries@.len() - i,
    {
        let entry = &blocklist.entries[i];
        proof {
            let upto = blocklist.entries@.take(i + 1);
            assert(upto.drop_last() == blocklist.entries@.take(i as int));
            assert(upto.last() == blocklist.entries@[i as int]);
            reveal_with_fuel(Seq::filter, 1);
        }
        if entry.merchant_id == merchant_id && entry.fingerprint_kind == kind {
            found.push(entry.clone());
        }
        i += 1;
    }
    assert(blocklist.entries@.take(i as int) == blocklist.entries@);
    found
}

/// The guard configurations after the guard of `merchant_id` has been
/// switched: the merchant's configuration holds the new setting, in its
/// old place or, if the merchant had none, at the end.
pub open spec fn switched(guards: Seq<BlocklistGuardConfig>, merchant_id: u64, enabled: bool) -> Seq<
    BlocklistGuardConfig,
> {
    if exists|i: int| 0 <= i < guards.len() && (#[trigger] guards[i]).merchant_id == merchant_id {
        guards.update(
            choose|i: int| 0 <= i < guards.len() && (#[trigger] guards[i]).merchant_id == merchant_id,
            BlocklistGuardConfig { merchant_id, enabled },
        )
    } else {
        guards.push(BlocklistGuardConfig { merchant_id, enabled })
    }
}

/// Switches a merchant's guard on or off. Other merchants' guards, and
/// what is barred, stay as they were.
pub fn toggle_blocklist_guard(blocklist: &mut Blocklist, merchant_id: u64, enabled: bool)
    ensures
        final(blocklist)@.entries == old(blocklist)@.entries,
        final(blocklist)@.guards == switched(old(blocklist)@.guards, merchant_id, enabled),
        final(blocklist)@.guard_enabled(merchant_id) == enabled,
        forall|other: u64|
            other != merchant_id ==> final(blocklist)@.guard_enabled(other) == old(blocklist)@
                .guard_enabled(other),
{
    proof {
        use_type_invariant(&*blocklist);
        lemma_switched_guard(blocklist.guards@, merchant_id, enabled);
    }
    let ghost before = blocklist.guards@;
    let mut i: usize = 0;
    let mut found: bool = false;
    while i < blocklist.guards.len() && !found
        invariant
            i <= before.len(),
            blocklist.guards@ == before,
            !found ==> forall|j: int| 0 <= j < i ==> (#[trigger] before[j]).merchant_id != merchant_id,
            found ==> i < before.len() && before[i as int].merchant_id == merchant_id,
        decreases before.len() - i + (if found { 0int } else { 1int }),
    {
        if blocklist.guards[i].merchant_id == merchant_id {
            found = true;
        } else {
            i += 1;
        }
    }
    let mut guards: Vec<BlocklistGuardConfig> = Vec::new();
    std::mem::swap(&mut guards, &mut blocklist.guards);
    if found {
        proof {
            let k = choose|k: int|
                0 <= k < before.len() && (#[trigger] before[k]).merchant_id == merchant_id;
            assert(before[k].merchant_id == before[i as int].merchant_id);
            assert(k == i) by {
                if k < i {
                    assert(before[k].merchant_id != before[i as int].merchant_id);
                } else if i < k {
                    assert(before[i as int].merchant_id != before[k].merchant_id);
                }
            }
        }
        guards.set(i, BlocklistGuardConfig { merchant_id, enabled });
    } else {
        guards.push(BlocklistGuardConfig { merchant_id, enabled });
    }
    blocklist.guards = guards;
}

/// Switching a merchant's guard sets that guard, leaves every other guard
/// as it was, and keeps one configuration for each merchant.
pub proof fn lemma_switched_guard(guards: Seq<BlocklistGuardConfig>, merchant_id: u64, enabled: bool)
    requires
        distinct_guards(guards),
    ensures
        distinct_guards(switched(guards, merchant_id, enabled)),
        guard_on(switched(guards, merchant_id, enabled), merchant_id) == enabled,
        forall|other: u64|
            other != merchant_id ==> guard_on(switched(guards, merchant_id, enabled), other)
                == guard_on(guards, other),
{
    let next = switched(guards, merchant_id, enabled);
    let at = if exists|i: int| 0 <= i < guards.len() && (#[trigger] guards[i]).merchant_id == merchant_id {
        choose|i: int| 0 <= i < guards.len() && (#[trigger] guards[i]).merchant_id == merchant_id
    } else {
        guards.len() as int
    };
    assert(next[at] == BlocklistGuardConfig { merchant_id, enabled });
    assert forall|k: int| 0 <= k < next.len() && k != at implies #[trigger] next[k] == guards[k]
        && guards[k].merchant_id != merchant_id by {
        if at < guards.len() {
            if k < at {
                assert(guards[k].merchant_id != guards[at].merchant_id);
            } else {
                assert(guards[at].merchant_id != guards[k].merchant_id);
            }
        }
    }
    assert forall|a: int, b: int| 0 <= a < b < next.len() implies (#[trigger] next[a]).merchant_id != (
    #[trigger] next[b]).merchant_id by {
        if a != at && b != at {
            assert(next[a] == guards[a] && next[b] == guards[b]);
            assert(guards[a].merchant_id != guards[b].merchant_id);
        } else if a == at {
            assert(next[b] == guards[b]);
        } else {
            assert(next[a] == guards[a]);
        }
    }
    if guard_on(next, merchant_id) {
        let k = choose|k: int|
            0 <= k < next.len() && (#[trigger] next[k]).merchant_id == merchant_id && next[k].enabled;
        if k != at {
            assert(next[k] == guards[k]);
        }
    }
    if enabled {
        assert(next[at].merchant_id == merchant_id && next[at].enabled);
    }
    assert forall|other: u64| other != merchant_id implies guard_on(next, other) == guard_on(
        guards,
        other,
    ) by {
        if guard_on(guards, other) {
            let k = choose|k: int|
                0 <= k < guards.len() && (#[trigger] guards[k]).merchant_id == other
                    && guards[k].enabled;
            assert(k != at);
            assert(next[k] == guards[k]);
        }
        if guard_on(next, other) {
            let k = choose|k: int|
                0 <= k < next.len() && (#[trigger] next[k]).merchant_id == other && next[k].enabled;
            assert(k != at);
            assert(next[k] == guards[k]);
        }
    }
}

/// The guard names the first barred candidate: it reports a kind exactly
/// when some candidate is barred, and then the kind of the first that is.
pub proof fn lemma_first_barred_is_first(
    blocklist: BlocklistView,
    merchant_id: u64,
    candidates: Seq<Fingerprint>,
)
    ensures
        match blocklist.first_barred(merchant_id, candidates) {
            Some(kind) => exists|i: int|
                0 <= i < candidates.len() && blocklist.holds(
                    merchant_id,
                    (#[trigger] candidates[i]).kind,
                    candidates[i].value@,
                ) && kind == candidates[i].kind && forall|j: int|
                    0 <= j < i ==> !blocklist.holds(
                        merchant_id,
                        (#[trigger] candidates[j]).kind,
                        candidates[j].value@,
                    ),
            None => forall|i: int|
                0 <= i < candidates.len() ==> !blocklist.holds(
                    merchant_id,
                    (#[trigger] candidates[i]).kind,
                    candidates[i].value@,
                ),
        },
    decreases candidates.len(),
{
    if candidates.len() > 0 && !blocklist.holds(merchant_id, candidates[0].kind, candidates[0].value@) {
        let rest = candidates.drop_first();
        lemma_first_barred_is_first(blocklist, merchant_id, rest);
        assert forall|i: int| 0 <= i < rest.len() implies #[trigger] rest[i] == candidates[i + 1] by {}
        match blocklist.first_barred(merchant_id, rest) {
            Some(kind) => {
                let i = choose|i: int|
                    0 <= i < rest.len() && blocklist.holds(
                        merchant_id,
                        (#[trigger] rest[i]).kind,
                        rest[i].value@,
                    ) && kind == rest[i].kind && forall|j: int|
                        0 <= j < i ==> !blocklist.holds(
                            merchant_id,
                            (#[trigger] rest[j]).kind,
                            rest[j].value@,
                        );
                assert(rest[i] == candidates[i + 1]);
                assert forall|j: int| 0 <= j < i + 1 implies !blocklist.holds(
                    merchant_id,
                    (#[trigger] candidates[j]).kind,
                    candidates[j].value@,
                ) by {
                    if j > 0 {
                        assert(rest[j - 1] == candidates[j]);
                    }
                }
            },
            None => {
                assert forall|i: int| 0 <= i < candidates.len() implies !blocklist.holds(
                    merchant_id,
                    (#[trigger] candidates[i]).kind,
                    candidates[i].value@,
                ) by {
                    if i > 0 {
                        assert(rest[i - 1] == candidates[i]);
                    }
                }
            },
        }
    }
}

/// With the guard switched on, a payment that carries a barred fingerprint
/// is always rejected; with the guard switched off, none ever is.
pub proof fn lemma_guard_decides(
    blocklist: BlocklistView,
    merchant_id: u64,
    candidates: Seq<Fingerprint>,
    i: int,
)
    requires
        0 <= i < candidates.len(),
        blocklist.holds(merchant_id, candidates[i].kind, candidates[i].value@),
    ensures
        blocklist.guard_enabled(merchant_id) ==> blocklist.rejection(merchant_id, candidates)
            is Some,
        !blocklist.guard_enabled(merchant_id) ==> blocklist.rejection(merchant_id, candidates)
            is None,
{
    lemma_first_barred_is_first(blocklist, merchant_id, candidates);
}

} // verus!
