//! Store identifiers: 128-bit values with a canonical textual form.

use vstd::prelude::*;

verus! {

/// The value that `uuid::Uuid::parse_str` reads from `text`, as the
/// big-endian 128-bit number of its sixteen bytes; `None` where it rejects
/// the text.
pub uninterp spec fn parsed_uuid(text: Seq<char>) -> Option<u128>;

/// The sixteen lower-case hexadecimal digits.
pub open spec fn hex_digits() -> Seq<char> {
    seq!['0', '1', '2', '3', '4', '5', '6', '7', '8', '9', 'a', 'b', 'c', 'd', 'e', 'f']
}

/// The `k`-th of the 32 hexadecimal digits of `value`, most significant first.
pub open spec fn nibble(value: u128, k: int) -> int
    recommends
        0 <= k < 32,
{
    (value as int / vstd::arithmetic::power::pow(16, (31 - k) as nat)) % 16
}

/// How many hyphens stand before position `i` of the canonical form.
pub open spec fn hyphens_before(i: int) -> int {
    if i < 8 {
        0
    } else if i < 13 {
        1
    } else if i < 18 {
        2
    } else if i < 23 {
        3
    } else {
        4
    }
}

/// The canonical form of an identifier: 36 characters, lower-case
/// hexadecimal digits in the groups 8-4-4-4-12, separated by hyphens.
pub open spec fn canonical_text(value: u128) -> Seq<char> {
    Seq::new(
        36,
        |i: int|
            if i == 8 || i == 13 || i == 18 || i == 23 {
                '-'
            } else {
                hex_digits()[nibble(value, i - hyphens_before(i))]
            },
    )
}

/// A store-native identifier.
#[derive(Clone, Copy, Debug, PartialEq, Eq, Structural)]
pub struct EntityId {
    pub value: u128,
}

/// Calls `uuid::Uuid::parse_str` and hands back the parsed identifier as a
/// number. The contract only gives the outcome its name, `parsed_uuid`.
#[verifier::external_body]
fn uuid_parse_str(text: &str) -> (r: Option<u128>)
    ensures
        r == parsed_uuid(text@),
{
    match uuid::Uuid::parse_str(text) {
        Ok(id) => Some(id.as_u128()),
        Err(_) => None,
    }
}

/// Renders an identifier with `uuid::Uuid`'s `Display`, which writes the
/// hyphenated lower-case form. The contract states that form, and that
/// `uuid::Uuid::parse_str` reads the same identifier back from it.
#[verifier::external_body]
fn uuid_to_string(value: u128) -> (r: String)
    ensures
        r@ == canonical_text(value),
        parsed_uuid(r@) == Some(value),
{
    uuid::Uuid::from_u128(value).to_string()
}

/// Whether the digits that tell the layout of an identifier say that it
/// is of version 7: the thirteenth digit is 7, and the seventeenth is 8,
/// 9, a or b.
pub open spec fn is_version_7(value: u128) -> bool {
    nibble(value, 12) == 7 && 8 <= nibble(value, 16) <= 11
}

/// Calls `uuid::Uuid::now_v7`. The identifier depends on the clock and on
/// random bits; the contract only states what holds of every version 7
/// identifier.
#[verifier::external_body]
fn uuid_now_v7() -> (r: u128)
    ensures
        is_version_7(r),
{
    uuid::Uuid::now_v7().as_u128()
}

impl EntityId {
    /// Reads an identifier from its textual form.
    pub fn parse(text: &str) -> (r: Option<EntityId>)
        ensures
            r == EntityId::parsed(text@),
    {
        match uuid_parse_str(text) {
            Some(value) => Some(EntityId { value }),
            None => None,
        }
    }

    /// What `parse` returns for `text`.
    pub open spec fn parsed(text: Seq<char>) -> Option<EntityId> {
        match parsed_uuid(text) {
            Some(value) => Some(EntityId { value }),
            None => None,
        }
    }

    /// The canonical textual form, which `parse` reads back.
    pub fn to_text(&self) -> (r: String)
        ensures
            r@ == canonical_text(self.value),
            EntityId::parsed(r@) == Some(*self),
    {
        uuid_to_string(self.value)
    }

    /// A fresh time-ordered identifier, of version 7.
    pub fn generate() -> (r: EntityId)
        ensures
            is_version_7(r.value),
    {
        EntityId { value: uuid_now_v7() }
    }
}

/// Where among `ids` the identifier `id` stands: the first place, if there
/// are several.
pub open spec fn position(ids: Seq<EntityId>, id: EntityId) -> Option<int>
    decreases ids.len(),
{
    if ids.len() == 0 {
        None
    } else if ids[0] == id {
        Some(0)
    } else {
        match position(ids.drop_first(), id) {
            Some(i) => Some(i + 1),
            None => None,
        }
    }
}

/// The place that `position` names holds the identifier, and no earlier
/// place does; it names none exactly where the identifier does not stand
/// among `ids`.
pub proof fn lemma_position(ids: Seq<EntityId>, id: EntityId)
    ensures
        match position(ids, id) {
            Some(i) => 0 <= i < ids.len() && ids[i] == id && forall|j: int|
                0 <= j < i ==> ids[j] != id,
            None => !ids.contains(id),
        },
    decreases ids.len(),
{
    if ids.len() > 0 && ids[0] != id {
        let rest = ids.drop_first();
        lemma_position(rest, id);
        match position(rest, id) {
            Some(i) => {
                assert(ids[i + 1] == rest[i]);
                assert forall|j: int| 0 <= j < i + 1 implies ids[j] != id by {
                    if j > 0 {
                        assert(ids[j] == rest[j - 1]);
                    }
                }
            },
            None => {
                assert forall|j: int| 0 <= j < ids.len() implies ids[j] != id by {
                    if j > 0 {
                        assert(ids[j] == rest[j - 1]);
                        assert(rest.contains(rest[j - 1]));
                    }
                }
            },
        }
    }
}

/// Among identifiers that are all different, taking one out leaves
/// identifiers that are all different.
pub proof fn lemma_remove_keeps_distinct(ids: Seq<EntityId>, place: int)
    requires
        ids.no_duplicates(),
        0 <= place < ids.len(),
    ensures
        ids.remove(place).no_duplicates(),
{
    let left = ids.remove(place);
    assert forall|i: int, j: int| 0 <= i < left.len() && 0 <= j < left.len() && i
        != j implies left[i] != left[j] by {
        let a = if i < place {
            i
        } else {
            i + 1
        };
        let b = if j < place {
            j
        } else {
            j + 1
        };
        assert(left[i] == ids[a]);
        assert(left[j] == ids[b]);
    }
}

/// Whether the identifiers stand in ascending order: each is less than
/// every later one.
pub open spec fn ascending(ids: Seq<EntityId>) -> bool {
    forall|i: int, j: int|
        0 <= i < j < ids.len() ==> (#[trigger] ids[i]).value < (#[trigger] ids[j]).value
}

/// How many of `ids` stand before the first that is not less than `id`:
/// among ascending identifiers, the place at which `id` goes.
pub open spec fn rank(ids: Seq<EntityId>, id: EntityId) -> int
    decreases ids.len(),
{
    if ids.len() == 0 || ids[0].value >= id.value {
        0
    } else {
        1 + rank(ids.drop_first(), id)
    }
}

/// The place `k` before which every identifier is less than `id`, and at
/// which none is, is the place that `rank` names.
pub proof fn lemma_rank(ids: Seq<EntityId>, id: EntityId, k: int)
    requires
        0 <= k <= ids.len(),
        forall|j: int| 0 <= j < k ==> (#[trigger] ids[j]).value < id.value,
        k < ids.len() ==> ids[k].value >= id.value,
    ensures
        rank(ids, id) == k,
    decreases ids.len(),
{
    if k > 0 {
        let rest = ids.drop_first();
        assert(ids[0].value < id.value);
        assert forall|j: int| 0 <= j < k - 1 implies (#[trigger] rest[j]).value < id.value by {
            assert(rest[j] == ids[j + 1]);
        }
        if k - 1 < rest.len() {
            assert(rest[k - 1] == ids[k]);
        }
        lemma_rank(rest, id, k - 1);
    }
}

/// Before the place that `rank` names every identifier is less than `id`,
/// and at that place none is.
pub proof fn lemma_rank_bounds(ids: Seq<EntityId>, id: EntityId)
    ensures
        0 <= rank(ids, id) <= ids.len(),
        forall|j: int| 0 <= j < rank(ids, id) ==> (#[trigger] ids[j]).value < id.value,
        rank(ids, id) < ids.len() ==> ids[rank(ids, id)].value >= id.value,
    decreases ids.len(),
{
    if ids.len() > 0 && ids[0].value < id.value {
        let rest = ids.drop_first();
        lemma_rank_bounds(rest, id);
        assert forall|j: int| 0 <= j < rank(ids, id) implies (#[trigger] ids[j]).value
            < id.value by {
            if j > 0 {
                assert(ids[j] == rest[j - 1]);
            }
        }
        if rank(ids, id) < ids.len() {
            assert(ids[rank(ids, id)] == rest[rank(rest, id)]);
        }
    }
}

/// Ascending identifiers are all different.
pub proof fn lemma_ascending_is_distinct(ids: Seq<EntityId>)
    requires
        ascending(ids),
    ensures
        ids.no_duplicates(),
{
    assert forall|i: int, j: int| 0 <= i < ids.len() && 0 <= j < ids.len() && i != j implies ids[i]
        != ids[j] by {
        if i < j {
            assert(ids[i].value < ids[j].value);
        } else {
            assert(ids[j].value < ids[i].value);
        }
    }
}

/// Among ascending identifiers, an identifier that is not among them goes
/// at its rank, and the identifiers are ascending still.
pub proof fn lemma_insert_keeps_ascending(ids: Seq<EntityId>, id: EntityId)
    requires
        ascending(ids),
        !ids.contains(id),
    ensures
        ascending(ids.insert(rank(ids, id), id)),
{
    lemma_rank_bounds(ids, id);
    let k = rank(ids, id);
    let after = ids.insert(k, id);
    assert forall|i: int, j: int| 0 <= i < j < after.len() implies (#[trigger] after[i]).value < (
    #[trigger] after[j]).value by {
        let a = if i < k {
            i
        } else {
            i - 1
        };
        let b = if j < k {
            j
        } else {
            j - 1
        };
        if i == k {
            assert(after[j] == ids[b]);
            assert(ids[k].value >= id.value);
            assert(ids.contains(ids[b]));
            if b > k {
                assert(ids[k].value < ids[b].value);
            }
            assert(ids[b] != id);
        } else if j == k {
            assert(after[i] == ids[a]);
        } else {
            assert(after[i] == ids[a]);
            assert(after[j] == ids[b]);
        }
    }
}

/// Among ascending identifiers, taking one out leaves ascending
/// identifiers.
pub proof fn lemma_remove_keeps_ascending(ids: Seq<EntityId>, place: int)
    requires
        ascending(ids),
        0 <= place < ids.len(),
    ensures
        ascending(ids.remove(place)),
{
    let left = ids.remove(place);
    assert forall|i: int, j: int| 0 <= i < j < left.len() implies (#[trigger] left[i]).value < (
    #[trigger] left[j]).value by {
        let a = if i < place {
            i
        } else {
            i + 1
        };
        let b = if j < place {
            j
        } else {
            j + 1
        };
        assert(left[i] == ids[a]);
        assert(left[j] == ids[b]);
    }
}

/// A part of ascending identifiers is ascending.
pub proof fn lemma_part_is_ascending(ids: Seq<EntityId>, from: int, to: int)
    requires
        ascending(ids),
        0 <= from <= to <= ids.len(),
    ensures
        ascending(ids.subrange(from, to)),
{
    let part = ids.subrange(from, to);
    assert forall|i: int, j: int| 0 <= i < j < part.len() implies (#[trigger] part[i]).value < (
    #[trigger] part[j]).value by {
        assert(part[i] == ids[from + i]);
        assert(part[j] == ids[from + j]);
    }
}

/// The identifiers read from the first `n` texts, or nothing where one of
/// them could not be read.
pub open spec fn parsed_prefix(texts: Seq<String>, n: nat) -> Option<Seq<EntityId>>
    decreases n,
{
    if n == 0 {
        Some(Seq::empty())
    } else {
        match parsed_prefix(texts, (n - 1) as nat) {
            Some(ids) => match EntityId::parsed(texts[n - 1]@) {
                Some(id) => Some(ids.push(id)),
                None => None,
            },
            None => None,
        }
    }
}

/// The identifiers read from `texts`, in order, or nothing where one of
/// them could not be read.
pub open spec fn parsed_all(texts: Seq<String>) -> Option<Seq<EntityId>> {
    parsed_prefix(texts, texts.len())
}

/// Once one of the first texts cannot be read, no longer prefix can.
proof fn lemma_parsed_prefix_stays_none(texts: Seq<String>, n: nat, m: nat)
    requires
        n <= m,
        parsed_prefix(texts, n) is None,
    ensures
        parsed_prefix(texts, m) is None,
    decreases m,
{
    if n < m {
        lemma_parsed_prefix_stays_none(texts, n, (m - 1) as nat);
    }
}

/// What contracts say of an optional list of identifiers.
pub open spec fn optional_ids_view(ids: Option<Vec<EntityId>>) -> Option<Seq<EntityId>> {
    match ids {
        Some(list) => Some(list@),
        None => None,
    }
}

/// Reads an identifier from each of `texts`, in order. One text that
/// cannot be read fails them all.
pub fn parse_all(texts: &Vec<String>) -> (r: Option<Vec<EntityId>>)
    ensures
        optional_ids_view(r) == parsed_all(texts@),
{
    let mut ids: Vec<EntityId> = Vec::new();
    let mut i: usize = 0;
    while i < texts.len()
        invariant
            i <= texts.len(),
            parsed_prefix(texts@, i as nat) == Some(ids@),
        decreases texts.len() - i,
    {
        match EntityId::parse(texts[i].as_str()) {
            Some(id) => {
                ids.push(id);
            },
            None => {
                proof {
                    assert(parsed_prefix(texts@, (i + 1) as nat) is None);
                    lemma_parsed_prefix_stays_none(texts@, (i + 1) as nat, texts@.len());
                }
                return None;
            },
        }
        i += 1;
    }
    Some(ids)
}

/// The first `n` identifiers without repetitions: each stands where it
/// first occurs.
pub open spec fn distinct_prefix(ids: Seq<EntityId>, n: nat) -> Seq<EntityId>
    decreases n,
{
    if n == 0 {
        Seq::empty()
    } else {
        let before = distinct_prefix(ids, (n - 1) as nat);
        if before.contains(ids[n - 1]) {
            before
        } else {
            before.push(ids[n - 1])
        }
    }
}

/// The identifiers without repetitions: each stands where it first
/// occurs.
pub open spec fn distinct(ids: Seq<EntityId>) -> Seq<EntityId> {
    distinct_prefix(ids, ids.len())
}

/// Among the first `n` identifiers without repetitions stand exactly the
/// first `n` identifiers, and none stands twice.
proof fn lemma_distinct_prefix(ids: Seq<EntityId>, n: nat)
    requires
        n <= ids.len(),
    ensures
        distinct_prefix(ids, n).no_duplicates(),
        forall|id: EntityId|
            #[trigger] distinct_prefix(ids, n).contains(id) <==> exists|i: int|
                0 <= i < n && ids[i] == id,
    decreases n,
{
    if n > 0 {
        lemma_distinct_prefix(ids, (n - 1) as nat);
        let before = distinct_prefix(ids, (n - 1) as nat);
        let now = distinct_prefix(ids, n);
        let last = ids[n - 1];
        assert forall|id: EntityId| #[trigger] now.contains(id) <==> exists|i: int|
            0 <= i < n && ids[i] == id by {
            if now.contains(id) {
                if before.contains(id) {
                    let i = choose|i: int| 0 <= i < n - 1 && ids[i] == id;
                    assert(0 <= i < n && ids[i] == id);
                } else {
                    let k = choose|k: int| 0 <= k < now.len() && now[k] == id;
                    assert(id == last);
                    assert(0 <= n - 1 < n && ids[n - 1] == id);
                }
            }
            if exists|i: int| 0 <= i < n && ids[i] == id {
                let i = choose|i: int| 0 <= i < n && ids[i] == id;
                if i < n - 1 {
                    assert(before.contains(id));
                    let k = choose|k: int| 0 <= k < before.len() && before[k] == id;
                    assert(now[k] == id);
                } else {
                    if before.contains(last) {
                    } else {
                        assert(now[now.len() - 1] == id);
                    }
                }
            }
        }
    }
}

/// The identifiers without repetitions are the same set as the
/// identifiers, and none stands twice.
pub proof fn distinct_keeps_the_set(ids: Seq<EntityId>)
    ensures
        distinct(ids).no_duplicates(),
        distinct(ids).to_set() == ids.to_set(),
{
    lemma_distinct_prefix(ids, ids.len());
    assert forall|id: EntityId| distinct(ids).to_set().contains(id) <==> ids.to_set().contains(
        id,
    ) by {
        assert(distinct(ids).to_set().contains(id) <==> distinct(ids).contains(id));
        assert(ids.to_set().contains(id) <==> ids.contains(id));
    }
    assert(distinct(ids).to_set() =~= ids.to_set());
}

/// Whether `id` stands among `ids`.
fn holds(ids: &Vec<EntityId>, id: EntityId) -> (r: bool)
    ensures
        r == ids@.contains(id),
{
    let mut i: usize = 0;
    while i < ids.len()
        invariant
            i <= ids.len(),
            forall|j: int| 0 <= j < i ==> ids@[j] != id,
        decreases ids.len() - i,
    {
        if ids[i] == id {
            return true;
        }
        i += 1;
    }
    false
}

/// Drops every repetition of an identifier, so that each stands where it
/// first occurred.
pub fn without_repetitions(ids: &Vec<EntityId>) -> (r: Vec<EntityId>)
    ensures
        r@ == distinct(ids@),
{
    let mut kept: Vec<EntityId> = Vec::new();
    let mut i: usize = 0;
    while i < ids.len()
        invariant
            i <= ids.len(),
            kept@ == distinct_prefix(ids@, i as nat),
        decreases ids.len() - i,
    {
        if !holds(&kept, ids[i]) {
            kept.push(ids[i]);
        }
        i += 1;
    }
    kept
}

} // verus!
