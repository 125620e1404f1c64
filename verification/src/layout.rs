//! The storage-layout model and the compatibility checker.
//!
//! A contract's storage layout maps each state variable to a physical
//! location: a slot index, a byte offset within the slot, and a type
//! descriptor carrying the encoded byte size and the encoding kind. A
//! recompiled source is storage-compatible with the recorded deployment only
//! if every recorded variable is still found at its exact physical location
//! with an unchanged size and encoding; fresh variables may be appended at
//! unused locations, but none may reuse a location claimed by a different
//! recorded variable.

use vstd::prelude::*;

verus! {

/// How a variable's value is encoded in storage.
#[derive(Clone, Copy, Debug, PartialEq, Eq, Structural)]
pub enum StorageEncoding {
    /// Stored directly in its slot (possibly packed with neighbours).
    Inplace,
    /// A mapping: the slot only anchors the key hashing scheme.
    Mapping,
    /// A dynamically sized array: the slot holds the length.
    DynamicArray,
    /// Dynamically sized byte strings.
    Bytes,
}

/// One state variable of a storage layout.
#[derive(Debug)]
pub struct StorageVar {
    /// Index of the 32-byte storage slot the variable starts in.
    pub slot: u64,
    /// Byte offset of the variable within its slot.
    pub offset: u64,
    /// Number of bytes the variable's type occupies.
    pub size: u64,
    /// Encoding kind of the variable's type.
    pub encoding: StorageEncoding,
    /// Source-level name of the variable.
    pub label: String,
}

impl Clone for StorageVar {
    fn clone(&self) -> (r: Self)
        ensures
            vars_equiv(r, *self),
    {
        StorageVar {
            slot: self.slot,
            offset: self.offset,
            size: self.size,
            encoding: self.encoding,
            label: self.label.clone(),
        }
    }
}

/// Two storage variables describe the same physical variable.
pub open spec fn vars_equiv(a: StorageVar, b: StorageVar) -> bool {
    a.slot == b.slot && a.offset == b.offset && a.size == b.size && a.encoding == b.encoding
        && a.label@ == b.label@
}

/// Two layouts describe the same sequence of physical variables.
pub open spec fn layouts_equiv(a: Seq<StorageVar>, b: Seq<StorageVar>) -> bool {
    a.len() == b.len() && forall|i: int| 0 <= i < a.len() ==> vars_equiv(#[trigger] a[i], b[i])
}

/// The variable `c` sits at the given physical location.
pub open spec fn pos_matches(c: StorageVar, slot: u64, offset: u64) -> bool {
    c.slot == slot && c.offset == offset
}

/// The types of `c` and `r` have the same physical encoding.
pub open spec fn ty_matches(c: StorageVar, r: StorageVar) -> bool {
    c.size == r.size && c.encoding == r.encoding
}

/// `j` is the first index of `s` whose variable sits at the given location.
pub open spec fn first_at(s: Seq<StorageVar>, slot: u64, offset: u64, j: int) -> bool {
    0 <= j < s.len() && pos_matches(s[j], slot, offset) && (forall|k: int|
        0 <= k < j ==> !pos_matches(#[trigger] s[k], slot, offset))
}

/// No variable of `s` sits at the given location.
pub open spec fn none_at(s: Seq<StorageVar>, slot: u64, offset: u64) -> bool {
    forall|k: int| 0 <= k < s.len() ==> !pos_matches(#[trigger] s[k], slot, offset)
}

/// `j` is the first index of `s` whose variable carries the given label.
pub open spec fn first_labeled(s: Seq<StorageVar>, label: Seq<char>, j: int) -> bool {
    0 <= j < s.len() && s[j].label@ == label && (forall|k: int|
        0 <= k < j ==> (#[trigger] s[k]).label@ != label)
}

/// No variable of `s` carries the given label.
pub open spec fn no_label(s: Seq<StorageVar>, label: Seq<char>) -> bool {
    forall|k: int| 0 <= k < s.len() ==> (#[trigger] s[k]).label@ != label
}

/// Recorded variable `i` is preserved by the current layout: the current
/// variable at its recorded location (the first one, if the location is
/// repeated) has the identical byte size and encoding.
#[verifier::opaque]
pub open spec fn rec_ok(rec: Seq<StorageVar>, cur: Seq<StorageVar>, i: int) -> bool {
    exists|j: int| #[trigger] first_at(cur, rec[i].slot, rec[i].offset, j) && ty_matches(
        cur[j],
        rec[i],
    )
}

/// Current variable `j` raises no conflict: if its location is claimed by a
/// recorded variable, that recorded variable carries the same label.
#[verifier::opaque]
pub open spec fn cur_ok(rec: Seq<StorageVar>, cur: Seq<StorageVar>, j: int) -> bool {
    forall|i: int| #[trigger] first_at(rec, cur[j].slot, cur[j].offset, i) ==> rec[i].label@
        == cur[j].label@
}

/// The current layout is storage-compatible with the recorded one.
pub open spec fn compatible(rec: Seq<StorageVar>, cur: Seq<StorageVar>) -> bool {
    (forall|i: int| 0 <= i < rec.len() ==> #[trigger] rec_ok(rec, cur, i)) && (forall|j: int|
        0 <= j < cur.len() ==> #[trigger] cur_ok(rec, cur, j))
}

/// One incompatibility between the recorded and the current layout.
#[derive(Debug)]
pub enum Violation {
    /// A recorded variable has vanished from the current layout.
    Missing { label: String, slot: u64, offset: u64 },
    /// A recorded variable is still present but at another location.
    Relocated {
        label: String,
        expected_slot: u64,
        expected_offset: u64,
        actual_slot: u64,
        actual_offset: u64,
    },
    /// The variable at a recorded location changed its size or encoding.
    TypeChanged {
        label: String,
        slot: u64,
        offset: u64,
        expected_size: u64,
        actual_size: u64,
        expected_encoding: StorageEncoding,
        actual_encoding: StorageEncoding,
    },
    /// A current variable reuses a location claimed by a recorded variable
    /// with a different label.
    Conflict { recorded_label: String, current_label: String, slot: u64, offset: u64 },
}

/// The fields of `v` describe recorded variable `i`'s violation exactly.
#[verifier::opaque]
pub open spec fn describes_recorded(
    v: Violation,
    rec: Seq<StorageVar>,
    cur: Seq<StorageVar>,
    i: int,
) -> bool {
    match v {
        Violation::Missing { label, slot, offset } => {
            none_at(cur, rec[i].slot, rec[i].offset) && no_label(cur, rec[i].label@) && label@
                == rec[i].label@ && slot == rec[i].slot && offset == rec[i].offset
        },
        Violation::Relocated {
            label,
            expected_slot,
            expected_offset,
            actual_slot,
            actual_offset,
        } => {
            none_at(cur, rec[i].slot, rec[i].offset) && (exists|k: int| #[trigger] first_labeled(
                cur,
                rec[i].label@,
                k,
            ) && cur[k].slot == actual_slot && cur[k].offset == actual_offset) && label@
                == rec[i].label@ && expected_slot == rec[i].slot && expected_offset
                == rec[i].offset
        },
        Violation::TypeChanged {
            label,
            slot,
            offset,
            expected_size,
            actual_size,
            expected_encoding,
            actual_encoding,
        } => {
            (exists|j: int| #[trigger] first_at(cur, rec[i].slot, rec[i].offset, j)
                && !ty_matches(cur[j], rec[i]) && cur[j].size == actual_size && cur[j].encoding
                == actual_encoding) && label@ == rec[i].label@ && slot == rec[i].slot && offset
                == rec[i].offset && expected_size == rec[i].size && expected_encoding
                == rec[i].encoding
        },
        Violation::Conflict { .. } => false,
    }
}

/// `v` is exactly the violation the checker reports for recorded variable `i`.
pub open spec fn reports_recorded(
    v: Violation,
    rec: Seq<StorageVar>,
    cur: Seq<StorageVar>,
    i: int,
) -> bool {
    !rec_ok(rec, cur, i) && describes_recorded(v, rec, cur, i)
}

/// The fields of `v` describe current variable `j`'s conflict exactly.
#[verifier::opaque]
pub open spec fn describes_current(
    v: Violation,
    rec: Seq<StorageVar>,
    cur: Seq<StorageVar>,
    j: int,
) -> bool {
    match v {
        Violation::Conflict { recorded_label, current_label, slot, offset } => {
            (exists|i: int| #[trigger] first_at(rec, cur[j].slot, cur[j].offset, i)
                && rec[i].label@ == recorded_label@ && rec[i].label@ != cur[j].label@)
                && current_label@ == cur[j].label@ && slot == cur[j].slot && offset
                == cur[j].offset
        },
        _ => false,
    }
}

/// `v` is exactly the violation the checker reports for current variable `j`.
pub open spec fn reports_current(
    v: Violation,
    rec: Seq<StorageVar>,
    cur: Seq<StorageVar>,
    j: int,
) -> bool {
    !cur_ok(rec, cur, j) && describes_current(v, rec, cur, j)
}

/// How many of the first `n` recorded variables the checker flags.
pub open spec fn bad_recorded_count(rec: Seq<StorageVar>, cur: Seq<StorageVar>, n: int) -> int
    decreases n,
{
    if n <= 0 {
        0
    } else {
        bad_recorded_count(rec, cur, n - 1) + if rec_ok(rec, cur, n - 1) {
            0int
        } else {
            1int
        }
    }
}

/// How many of the first `n` current variables the checker flags.
pub open spec fn bad_current_count(rec: Seq<StorageVar>, cur: Seq<StorageVar>, n: int) -> int
    decreases n,
{
    if n <= 0 {
        0
    } else {
        bad_current_count(rec, cur, n - 1) + if cur_ok(rec, cur, n - 1) {
            0int
        } else {
            1int
        }
    }
}

proof fn lemma_first_at_unique(s: Seq<StorageVar>, slot: u64, offset: u64, j1: int, j2: int)
    requires
        first_at(s, slot, offset, j1),
        first_at(s, slot, offset, j2),
    ensures
        j1 == j2,
{
    if j1 < j2 {
        assert(!pos_matches(s[j1], slot, offset));
    } else if j2 < j1 {
        assert(!pos_matches(s[j2], slot, offset));
    }
}

/// First index of `vars` sitting at the given location, if any.
fn find_at(vars: &Vec<StorageVar>, slot: u64, offset: u64) -> (r: Option<usize>)
    ensures
        match r {
            Some(j) => first_at(vars@, slot, offset, j as int),
            None => none_at(vars@, slot, offset),
        },
{
    let mut j: usize = 0;
    while j < vars.len()
        invariant
            j <= vars.len(),
            forall|k: int| 0 <= k < j ==> !pos_matches(#[trigger] vars@[k], slot, offset),
        decreases vars.len() - j,
    {
        if vars[j].slot == slot && vars[j].offset == offset {
            return Some(j);
        }
        j = j + 1;
    }
    None
}

/// First index of `vars` carrying the given label, if any.
fn find_labeled(vars: &Vec<StorageVar>, label: &String) -> (r: Option<usize>)
    ensures
        match r {
            Some(j) => first_labeled(vars@, label@, j as int),
            None => no_label(vars@, label@),
        },
{
    let mut j: usize = 0;
    while j < vars.len()
        invariant
            j <= vars.len(),
            forall|k: int| 0 <= k < j ==> (#[trigger] vars@[k]).label@ != label@,
        decreases vars.len() - j,
    {
        if vars[j].label == *label {
            return Some(j);
        }
        j = j + 1;
    }
    None
}

/// Decide how recorded variable `i` fares against the current layout and,
/// if it is violated, build the violation that describes it.
fn recorded_verdict(recorded: &Vec<StorageVar>, current: &Vec<StorageVar>, i: usize) -> (r:
    Option<Violation>)
    requires
        i < recorded@.len(),
    ensures
        match r {
            None => rec_ok(recorded@, current@, i as int),
            Some(v) => reports_recorded(v, recorded@, current@, i as int),
        },
{
    proof {
        reveal(describes_recorded);
        reveal(rec_ok);
    }
    let ghost rec = recorded@;
    let ghost cur = current@;
    let r = &recorded[i];
    match find_at(current, r.slot, r.offset) {
        Some(j) => {
            if current[j].size == r.size && current[j].encoding == r.encoding {
                proof {
                    assert(first_at(cur, rec[i as int].slot, rec[i as int].offset, j as int)
                        && ty_matches(cur[j as int], rec[i as int]));
                }
                None
            } else {
                let v = Violation::TypeChanged {
                    label: r.label.clone(),
                    slot: r.slot,
                    offset: r.offset,
                    expected_size: r.size,
                    actual_size: current[j].size,
                    expected_encoding: r.encoding,
                    actual_encoding: current[j].encoding,
                };
                proof {
                    if rec_ok(rec, cur, i as int) {
                        let j2 = choose|j2: int|
                            #[trigger] first_at(cur, rec[i as int].slot, rec[i as int].offset, j2)
                                && ty_matches(cur[j2], rec[i as int]);
                        lemma_first_at_unique(
                            cur,
                            rec[i as int].slot,
                            rec[i as int].offset,
                            j as int,
                            j2,
                        );
                    }
                }
                Some(v)
            }
        },
        None => {
            proof {
                if rec_ok(rec, cur, i as int) {
                    let j2 = choose|j2: int|
                        #[trigger] first_at(cur, rec[i as int].slot, rec[i as int].offset, j2)
                            && ty_matches(cur[j2], rec[i as int]);
                    assert(!pos_matches(cur[j2], rec[i as int].slot, rec[i as int].offset));
                }
            }
            match find_labeled(current, &r.label) {
                Some(k) => Some(
                    Violation::Relocated {
                        label: r.label.clone(),
                        expected_slot: r.slot,
                        expected_offset: r.offset,
                        actual_slot: current[k].slot,
                        actual_offset: current[k].offset,
                    },
                ),
                None => Some(
                    Violation::Missing { label: r.label.clone(), slot: r.slot, offset: r.offset },
                ),
            }
        },
    }
}

/// Decide whether current variable `j` conflicts with a recorded location
/// and, if it does, build the violation that describes it.
fn current_verdict(recorded: &Vec<StorageVar>, current: &Vec<StorageVar>, j: usize) -> (r: Option<
    Violation,
>)
    requires
        j < current@.len(),
    ensures
        match r {
            None => cur_ok(recorded@, current@, j as int),
            Some(v) => reports_current(v, recorded@, current@, j as int),
        },
{
    proof {
        reveal(describes_current);
        reveal(cur_ok);
    }
    let ghost rec = recorded@;
    let ghost cur = current@;
    let c = &current[j];
    match find_at(recorded, c.slot, c.offset) {
        Some(i2) => {
            if !(recorded[i2].label == c.label) {
                let v = Violation::Conflict {
                    recorded_label: recorded[i2].label.clone(),
                    current_label: c.label.clone(),
                    slot: c.slot,
                    offset: c.offset,
                };
                proof {
                    assert(first_at(rec, cur[j as int].slot, cur[j as int].offset, i2 as int)
                        && rec[i2 as int].label@ != cur[j as int].label@);
                }
                Some(v)
            } else {
                proof {
                    assert forall|i3: int|
                        #[trigger] first_at(
                            rec,
                            cur[j as int].slot,
                            cur[j as int].offset,
                            i3,
                        ) implies rec[i3].label@ == cur[j as int].label@ by {
                        lemma_first_at_unique(
                            rec,
                            cur[j as int].slot,
                            cur[j as int].offset,
                            i2 as int,
                            i3,
                        );
                    }
                }
                None
            }
        },
        None => {
            proof {
                assert forall|i3: int|
                    #[trigger] first_at(
                        rec,
                        cur[j as int].slot,
                        cur[j as int].offset,
                        i3,
                    ) implies rec[i3].label@ == cur[j as int].label@ by {
                    assert(!pos_matches(rec[i3], cur[j as int].slot, cur[j as int].offset));
                }
            }
            None
        },
    }
}

/// First pass: one violation for every recorded variable that the current
/// layout fails to preserve, in recorded order.

/// The full accounting of an incompatible pair of layouts: the violation of
/// the `n`-th flagged recorded variable stands at index `n`, followed by the
/// conflicts of the flagged current variables in current order.
pub open spec fn violations_complete(
    vs: Seq<Violation>,
    rec: Seq<StorageVar>,
    cur: Seq<StorageVar>,
) -> bool {
    &&& vs.len() == bad_recorded_count(rec, cur, rec.len() as int) + bad_current_count(
        rec,
        cur,
        cur.len() as int,
    )
    &&& forall|t: int|
        0 <= t < rec.len() && !(#[trigger] rec_ok(rec, cur, t)) ==> reports_recorded(
            vs[bad_recorded_count(rec, cur, t)],
            rec,
            cur,
            t,
        )
    &&& forall|t: int|
        0 <= t < cur.len() && !(#[trigger] cur_ok(rec, cur, t)) ==> reports_current(
            vs[bad_recorded_count(rec, cur, rec.len() as int) + bad_current_count(rec, cur, t)],
            rec,
            cur,
            t,
        )
}

/// The error of an incompatible storage layout: it enumerates every
/// violation, not only the first one found.
#[derive(Debug)]
pub struct IncompatibleStorageError {
    pub violations: Vec<Violation>,
}

proof fn lemma_bad_recorded_count_mono(rec: Seq<StorageVar>, cur: Seq<StorageVar>, a: int, b: int)
    requires
        a <= b,
    ensures
        bad_recorded_count(rec, cur, a) <= bad_recorded_count(rec, cur, b),
    decreases b - a,
{
    if a < b {
        lemma_bad_recorded_count_mono(rec, cur, a, b - 1);
    }
}

proof fn lemma_bad_current_count_mono(rec: Seq<StorageVar>, cur: Seq<StorageVar>, a: int, b: int)
    requires
        a <= b,
    ensures
        bad_current_count(rec, cur, a) <= bad_current_count(rec, cur, b),
    decreases b - a,
{
    if a < b {
        lemma_bad_current_count_mono(rec, cur, a, b - 1);
    }
}

proof fn lemma_bad_recorded_count_zero(rec: Seq<StorageVar>, cur: Seq<StorageVar>, n: int)
    requires
        bad_recorded_count(rec, cur, n) == 0,
    ensures
        forall|t: int| 0 <= t < n ==> #[trigger] rec_ok(rec, cur, t),
    decreases n,
{
    if n > 0 {
        lemma_bad_recorded_count_mono(rec, cur, 0, n - 1);
        lemma_bad_recorded_count_zero(rec, cur, n - 1);
    }
}

proof fn lemma_bad_current_count_zero(rec: Seq<StorageVar>, cur: Seq<StorageVar>, n: int)
    requires
        bad_current_count(rec, cur, n) == 0,
    ensures
        forall|t: int| 0 <= t < n ==> #[trigger] cur_ok(rec, cur, t),
    decreases n,
{
    if n > 0 {
        lemma_bad_current_count_mono(rec, cur, 0, n - 1);
        lemma_bad_current_count_zero(rec, cur, n - 1);
    }
}

proof fn lemma_bad_recorded_count_pos(rec: Seq<StorageVar>, cur: Seq<StorageVar>, n: int)
    requires
        bad_recorded_count(rec, cur, n) > 0,
    ensures
        exists|t: int| 0 <= t < n && !(#[trigger] rec_ok(rec, cur, t)),
    decreases n,
{
    if n > 0 {
        if !rec_ok(rec, cur, n - 1) {
            assert(0 <= n - 1 < n && !rec_ok(rec, cur, n - 1));
        } else {
            lemma_bad_recorded_count_pos(rec, cur, n - 1);
        }
    }
}

proof fn lemma_bad_current_count_pos(rec: Seq<StorageVar>, cur: Seq<StorageVar>, n: int)
    requires
        bad_current_count(rec, cur, n) > 0,
    ensures
        exists|t: int| 0 <= t < n && !(#[trigger] cur_ok(rec, cur, t)),
    decreases n,
{
    if n > 0 {
        if !cur_ok(rec, cur, n - 1) {
            assert(0 <= n - 1 < n && !cur_ok(rec, cur, n - 1));
        } else {
            lemma_bad_current_count_pos(rec, cur, n - 1);
        }
    }
}

/// First pass: one violation for every recorded variable that the current
/// layout fails to preserve, in recorded order.
fn recorded_violations(recorded: &Vec<StorageVar>, current: &Vec<StorageVar>) -> (vs: Vec<
    Violation,
>)
    ensures
        vs@.len() == bad_recorded_count(recorded@, current@, recorded@.len() as int),
        forall|t: int|
            0 <= t < recorded@.len() && !(#[trigger] rec_ok(recorded@, current@, t))
                ==> reports_recorded(
                vs@[bad_recorded_count(recorded@, current@, t)],
                recorded@,
                current@,
                t,
            ),
{
    let ghost rec = recorded@;
    let ghost cur = current@;
    let mut violations: Vec<Violation> = Vec::new();

    let mut i: usize = 0;
    while i < recorded.len()
        invariant
            i <= recorded.len(),
            rec == recorded@,
            cur == current@,
            violations@.len() == bad_recorded_count(rec, cur, i as int),
            forall|t: int|
                0 <= t < i && !(#[trigger] rec_ok(rec, cur, t)) ==> reports_recorded(
                    violations@[bad_recorded_count(rec, cur, t)],
                    rec,
                    cur,
                    t,
                ),
        decreases recorded.len() - i,
    {
        match recorded_verdict(recorded, current, i) {
            None => {},
            Some(v) => {
                let ghost prev = violations@;
                violations.push(v);
                proof {
                    assert(violations@ == prev.push(v));
                    assert forall|t: int|
                        0 <= t < i + 1 && !(#[trigger] rec_ok(rec, cur, t)) implies
                        reports_recorded(
                        violations@[bad_recorded_count(rec, cur, t)],
                        rec,
                        cur,
                        t,
                    ) by {
                        if t < i {
                            lemma_bad_recorded_count_mono(rec, cur, t + 1, i as int);
                            lemma_bad_recorded_count_mono(rec, cur, 0, t);
                            assert(0 <= bad_recorded_count(rec, cur, t) < prev.len());
                            vstd::seq::axiom_seq_push_index_different(
                                prev,
                                v,
                                bad_recorded_count(rec, cur, t),
                            );
                        } else {
                            assert(bad_recorded_count(rec, cur, t) == prev.len());
                            assert(violations@[prev.len() as int] == v);
                        }
                    }
                }
            },
        }
        i = i + 1;
    }
    violations
}

/// Second pass: append one violation for every current variable that
/// conflicts with a recorded location, in current order.
fn append_current_violations(
    recorded: &Vec<StorageVar>,
    current: &Vec<StorageVar>,
    violations: &mut Vec<Violation>,
)
    ensures
        final(violations)@.len() == old(violations)@.len() + bad_current_count(
            recorded@,
            current@,
            current@.len() as int,
        ),
        forall|k: int|
            0 <= k < old(violations)@.len() ==> final(violations)@[k] == old(violations)@[k],
        forall|t: int|
            0 <= t < current@.len() && !(#[trigger] cur_ok(recorded@, current@, t))
                ==> reports_current(
                final(violations)@[old(violations)@.len() + bad_current_count(
                    recorded@,
                    current@,
                    t,
                )],
                recorded@,
                current@,
                t,
            ),
{
    let ghost rec = recorded@;
    let ghost cur = current@;
    let ghost base = violations@.len() as int;

    let mut j: usize = 0;
    while j < current.len()
        invariant
            j <= current.len(),
            rec == recorded@,
            cur == current@,
            violations@.len() == base + bad_current_count(rec, cur, j as int),
            0 <= base <= violations@.len(),
            forall|k: int| 0 <= k < base ==> violations@[k] == old(violations)@[k],
            forall|t: int|
                0 <= t < j && !(#[trigger] cur_ok(rec, cur, t)) ==> reports_current(
                    violations@[base + bad_current_count(rec, cur, t)],
                    rec,
                    cur,
                    t,
                ),
        decreases current.len() - j,
    {
        match current_verdict(recorded, current, j) {
            None => {},
            Some(v) => {
                let ghost prev = violations@;
                violations.push(v);
                proof {
                    assert(violations@ == prev.push(v));
                    assert forall|t: int|
                        0 <= t < j + 1 && !(#[trigger] cur_ok(rec, cur, t)) implies
                        reports_current(
                        violations@[base + bad_current_count(rec, cur, t)],
                        rec,
                        cur,
                        t,
                    ) by {
                        if t < j {
                            lemma_bad_current_count_mono(rec, cur, t + 1, j as int);
                            lemma_bad_current_count_mono(rec, cur, 0, t);
                            assert(0 <= base + bad_current_count(rec, cur, t) < prev.len());
                            vstd::seq::axiom_seq_push_index_different(
                                prev,
                                v,
                                base + bad_current_count(rec, cur, t),
                            );
                        } else {
                            assert(base + bad_current_count(rec, cur, t) == prev.len());
                            assert(violations@[prev.len() as int] == v);
                        }
                    }
                }
            },
        }
        j = j + 1;
    }
}

/// Check that `current` is storage-compatible with `recorded`.
///
/// The check is exhaustive: on failure the error carries one violation for
/// every recorded variable that is missing, relocated or re-typed, and one
/// for every current variable that conflicts with a recorded location, so a
/// caller can report all problems at once.
pub fn check_storage_compatibility(recorded: &Vec<StorageVar>, current: &Vec<StorageVar>) -> (r:
    Result<(), IncompatibleStorageError>)
    ensures
        r is Ok <==> compatible(recorded@, current@),
        r matches Err(e) ==> violations_complete(e.violations@, recorded@, current@),
{
    let ghost rec = recorded@;
    let ghost cur = current@;
    let mut violations = recorded_violations(recorded, current);
    let ghost vs1 = violations@;
    append_current_violations(recorded, current, &mut violations);

    proof {
        assert forall|t: int|
            0 <= t < rec.len() && !(#[trigger] rec_ok(rec, cur, t)) implies reports_recorded(
            violations@[bad_recorded_count(rec, cur, t)],
            rec,
            cur,
            t,
        ) by {
            lemma_bad_recorded_count_mono(rec, cur, t + 1, rec.len() as int);
            lemma_bad_recorded_count_mono(rec, cur, 0, t);
            assert(0 <= bad_recorded_count(rec, cur, t) < vs1.len());
            assert(violations@[bad_recorded_count(rec, cur, t)] == vs1[bad_recorded_count(
                rec,
                cur,
                t,
            )]);
        }
    }

    if violations.len() == 0 {
        proof {
            lemma_bad_recorded_count_mono(rec, cur, 0, rec.len() as int);
            lemma_bad_current_count_mono(rec, cur, 0, cur.len() as int);
            lemma_bad_recorded_count_zero(rec, cur, rec.len() as int);
            lemma_bad_current_count_zero(rec, cur, cur.len() as int);
        }
        Ok(())
    } else {
        proof {
            lemma_bad_recorded_count_mono(rec, cur, 0, rec.len() as int);
            lemma_bad_current_count_mono(rec, cur, 0, cur.len() as int);
            if bad_recorded_count(rec, cur, rec.len() as int) > 0 {
                lemma_bad_recorded_count_pos(rec, cur, rec.len() as int);
                let t = choose|t: int| 0 <= t < rec.len() && !(#[trigger] rec_ok(rec, cur, t));
                assert(!compatible(rec, cur));
            } else {
                lemma_bad_current_count_pos(rec, cur, cur.len() as int);
                let t = choose|t: int| 0 <= t < cur.len() && !(#[trigger] cur_ok(rec, cur, t));
                assert(!compatible(rec, cur));
            }
        }
        Err(IncompatibleStorageError { violations })
    }
}

proof fn lemma_first_at_congruence(
    cur1: Seq<StorageVar>,
    cur2: Seq<StorageVar>,
    slot: u64,
    offset: u64,
    j: int,
)
    requires
        layouts_equiv(cur1, cur2),
        first_at(cur1, slot, offset, j),
    ensures
        first_at(cur2, slot, offset, j),
{
    assert(vars_equiv(cur1[j], cur2[j]));
    assert forall|k: int| 0 <= k < j implies !pos_matches(#[trigger] cur2[k], slot, offset) by {
        assert(vars_equiv(cur1[k], cur2[k]));
        assert(!pos_matches(cur1[k], slot, offset));
    }
}

proof fn lemma_layouts_equiv_sym(a: Seq<StorageVar>, b: Seq<StorageVar>)
    requires
        layouts_equiv(a, b),
    ensures
        layouts_equiv(b, a),
{
    assert forall|i: int| 0 <= i < b.len() implies vars_equiv(#[trigger] b[i], a[i]) by {
        assert(vars_equiv(a[i], b[i]));
    }
}

proof fn lemma_rec_ok_congruence(
    rec: Seq<StorageVar>,
    cur1: Seq<StorageVar>,
    cur2: Seq<StorageVar>,
    i: int,
)
    requires
        layouts_equiv(cur1, cur2),
    ensures
        rec_ok(rec, cur1, i) == rec_ok(rec, cur2, i),
{
    reveal(rec_ok);
    lemma_layouts_equiv_sym(cur1, cur2);
    if rec_ok(rec, cur1, i) {
        let j = choose|j: int|
            #[trigger] first_at(cur1, rec[i].slot, rec[i].offset, j) && ty_matches(
                cur1[j],
                rec[i],
            );
        lemma_first_at_congruence(cur1, cur2, rec[i].slot, rec[i].offset, j);
        assert(vars_equiv(cur1[j], cur2[j]));
        assert(first_at(cur2, rec[i].slot, rec[i].offset, j) && ty_matches(cur2[j], rec[i]));
    }
    if rec_ok(rec, cur2, i) {
        let j = choose|j: int|
            #[trigger] first_at(cur2, rec[i].slot, rec[i].offset, j) && ty_matches(
                cur2[j],
                rec[i],
            );
        lemma_first_at_congruence(cur2, cur1, rec[i].slot, rec[i].offset, j);
        assert(vars_equiv(cur2[j], cur1[j]));
        assert(first_at(cur1, rec[i].slot, rec[i].offset, j) && ty_matches(cur1[j], rec[i]));
    }
}

proof fn lemma_cur_ok_congruence(
    rec: Seq<StorageVar>,
    cur1: Seq<StorageVar>,
    cur2: Seq<StorageVar>,
    j: int,
)
    requires
        layouts_equiv(cur1, cur2),
        0 <= j < cur1.len(),
    ensures
        cur_ok(rec, cur1, j) == cur_ok(rec, cur2, j),
{
    reveal(cur_ok);
    assert(vars_equiv(cur1[j], cur2[j]));
    if cur_ok(rec, cur1, j) {
        assert forall|i: int|
            #[trigger] first_at(rec, cur2[j].slot, cur2[j].offset, i) implies rec[i].label@
            == cur2[j].label@ by {
            assert(first_at(rec, cur1[j].slot, cur1[j].offset, i));
        }
    }
    if cur_ok(rec, cur2, j) {
        assert forall|i: int|
            #[trigger] first_at(rec, cur1[j].slot, cur1[j].offset, i) implies rec[i].label@
            == cur1[j].label@ by {
            assert(first_at(rec, cur2[j].slot, cur2[j].offset, i));
        }
    }
}

/// Compatibility depends only on the physical content of the current
/// layout: two layouts that describe the same variables are compatible
/// with exactly the same baselines.
pub proof fn lemma_compatible_congruence(
    rec: Seq<StorageVar>,
    cur1: Seq<StorageVar>,
    cur2: Seq<StorageVar>,
)
    requires
        layouts_equiv(cur1, cur2),
    ensures
        compatible(rec, cur1) == compatible(rec, cur2),
{
    if compatible(rec, cur1) {
        assert forall|i: int| 0 <= i < rec.len() implies #[trigger] rec_ok(rec, cur2, i) by {
            lemma_rec_ok_congruence(rec, cur1, cur2, i);
            assert(rec_ok(rec, cur1, i));
        }
        assert forall|j: int| 0 <= j < cur2.len() implies #[trigger] cur_ok(rec, cur2, j) by {
            lemma_cur_ok_congruence(rec, cur1, cur2, j);
            assert(cur_ok(rec, cur1, j));
        }
        assert(compatible(rec, cur2));
    }
    if compatible(rec, cur2) {
        assert forall|i: int| 0 <= i < rec.len() implies #[trigger] rec_ok(rec, cur1, i) by {
            lemma_rec_ok_congruence(rec, cur1, cur2, i);
            assert(rec_ok(rec, cur2, i));
        }
        assert forall|j: int| 0 <= j < cur1.len() implies #[trigger] cur_ok(rec, cur1, j) by {
            lemma_cur_ok_congruence(rec, cur1, cur2, j);
            assert(cur_ok(rec, cur2, j));
        }
        assert(compatible(rec, cur1));
    }
}

} // verus!
