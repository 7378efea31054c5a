use crate::identifier::{
    all_normalized, lemma_normal_and_distinct, lemma_normalized_all_is_normal, normalize,
    normalized, normalized_all,
};
use vstd::prelude::*;

verus! {

/// The mathematical model of a device identifier: the characters of a MAC
/// address. A snapshot holds identifiers in their normal form, so that two
/// of its identifiers are the same device exactly when their characters
/// agree.
pub type Mac = Seq<char>;

/// The identifiers of `from` that do not occur in `other`, in the order in
/// which `from` lists them.
pub open spec fn absent_from(from: Seq<Mac>, other: Seq<Mac>) -> Seq<Mac> {
    from.filter(|id: Mac| !other.contains(id))
}

/// Devices present now and absent before.
pub open spec fn arrived(previous: Seq<Mac>, current: Seq<Mac>) -> Seq<Mac> {
    absent_from(current, previous)
}

/// Devices present before and absent now.
pub open spec fn departed(previous: Seq<Mac>, current: Seq<Mac>) -> Seq<Mac> {
    absent_from(previous, current)
}

/// `listed` without repetitions: each identifier stands where it first occurs.
pub open spec fn first_occurrences(listed: Seq<Mac>) -> Seq<Mac>
    decreases listed.len(),
{
    if listed.len() == 0 {
        Seq::empty()
    } else {
        let earlier = first_occurrences(listed.drop_last());
        if earlier.contains(listed.last()) {
            earlier
        } else {
            earlier.push(listed.last())
        }
    }
}

/// Filtering keeps a sequence free of repetitions.
pub proof fn lemma_filter_keeps_distinct(s: Seq<Mac>, keep: spec_fn(Mac) -> bool)
    requires
        s.no_duplicates(),
    ensures
        s.filter(keep).no_duplicates(),
    decreases s.len(),
{
    reveal(Seq::filter);
    if s.len() > 0 {
        let front = s.drop_last();
        lemma_filter_keeps_distinct(front, keep);
        if keep(s.last()) {
            let kept = front.filter(keep);
            assert forall|i: int| 0 <= i < kept.len() implies kept[i] != s.last() by {
                assert(kept.contains(kept[i]));
                front.lemma_filter_contains_rev(keep, kept[i]);
                let j = choose|j: int| 0 <= j < front.len() && front[j] == kept[i];
                assert(s[j] == kept[i]);
            }
        }
    }
}

/// An identifier is in a filtered sequence exactly when it is in the
/// sequence and passes the filter.
pub proof fn lemma_filter_membership(s: Seq<Mac>, keep: spec_fn(Mac) -> bool, id: Mac)
    ensures
        s.filter(keep).contains(id) <==> (s.contains(id) && keep(id)),
{
    let kept = s.filter(keep);
    if kept.contains(id) {
        s.lemma_filter_contains_rev(keep, id);
        let i = choose|i: int| 0 <= i < kept.len() && kept[i] == id;
        s.lemma_filter_pred(keep, i);
    }
    if s.contains(id) && keep(id) {
        let i = choose|i: int| 0 <= i < s.len() && s[i] == id;
        s.lemma_filter_contains(keep, i);
    }
}

/// As sets, `absent_from` is set difference; it repeats nothing that
/// `from` does not repeat.
pub proof fn lemma_absent_from_is_difference(from: Seq<Mac>, other: Seq<Mac>)
    ensures
        absent_from(from, other).to_set() == from.to_set().difference(other.to_set()),
        from.no_duplicates() ==> absent_from(from, other).no_duplicates(),
{
    let keep = |id: Mac| !other.contains(id);
    assert forall|id: Mac|
        absent_from(from, other).to_set().contains(id) <==> from.to_set().difference(
            other.to_set(),
        ).contains(id) by {
        lemma_filter_membership(from, keep, id);
    }
    assert(absent_from(from, other).to_set() =~= from.to_set().difference(other.to_set()));
    if from.no_duplicates() {
        lemma_filter_keeps_distinct(from, keep);
    }
}

/// `first_occurrences` repeats nothing and holds the same identifiers as
/// what it was given.
pub proof fn lemma_first_occurrences(listed: Seq<Mac>)
    ensures
        first_occurrences(listed).no_duplicates(),
        first_occurrences(listed).to_set() == listed.to_set(),
        first_occurrences(listed).len() <= listed.len(),
    decreases listed.len(),
{
    if listed.len() == 0 {
        assert(first_occurrences(listed).to_set() =~= listed.to_set());
    } else {
        let front = listed.drop_last();
        let earlier = first_occurrences(front);
        lemma_first_occurrences(front);
        let all = first_occurrences(listed);
        assert forall|id: Mac| all.to_set().contains(id) <==> listed.to_set().contains(id) by {
            if all.contains(id) {
                let i = choose|i: int| 0 <= i < all.len() && all[i] == id;
                if i < earlier.len() {
                    assert(earlier.contains(id));
                    assert(front.to_set().contains(id));
                    let j = choose|j: int| 0 <= j < front.len() && front[j] == id;
                    assert(listed[j] == id);
                } else {
                    assert(listed[listed.len() - 1] == id);
                }
            }
            if listed.contains(id) {
                let j = choose|j: int| 0 <= j < listed.len() && listed[j] == id;
                if j < front.len() {
                    assert(front[j] == id);
                    assert(front.to_set().contains(id));
                    assert(earlier.contains(id));
                    let i = choose|i: int| 0 <= i < earlier.len() && earlier[i] == id;
                    assert(all[i] == id);
                } else {
                    if earlier.contains(id) {
                    } else {
                        assert(all[all.len() - 1] == id);
                    }
                }
            }
        }
        assert(all.to_set() =~= listed.to_set());
    }
}

/// `first_occurrences` of identifiers in normal form are in normal form.
pub proof fn lemma_first_occurrences_keep_normal(listed: Seq<Mac>)
    requires
        all_normalized(listed),
    ensures
        all_normalized(first_occurrences(listed)),
    decreases listed.len(),
{
    if listed.len() > 0 {
        let front = listed.drop_last();
        assert(all_normalized(front)) by {
            assert forall|i: int| 0 <= i < front.len() implies normalized(#[trigger] front[i])
                == front[i] by {
                assert(front[i] == listed[i]);
            }
        }
        lemma_first_occurrences_keep_normal(front);
        assert(normalized(listed[listed.len() - 1]) == listed[listed.len() - 1]);
    }
}

/// A snapshot holds each device that a listing names under one identifier:
/// its identifiers stand in normal form, hold the normal form of every
/// identifier listed and no other, and no two of them agree but for the
/// case of their letters.
pub proof fn one_identifier_for_each_device(listed: Seq<Mac>)
    ensures
        ({
            let ids = first_occurrences(normalized_all(listed));
            &&& all_normalized(ids)
            &&& ids.no_duplicates()
            &&& ids.to_set() == normalized_all(listed).to_set()
            &&& forall|i: int, j: int|
                0 <= i < ids.len() && 0 <= j < ids.len() && i != j ==> normalized(
                    #[trigger] ids[i],
                ) != normalized(#[trigger] ids[j])
        }),
{
    let named = normalized_all(listed);
    lemma_normalized_all_is_normal(listed);
    lemma_first_occurrences(named);
    lemma_first_occurrences_keep_normal(named);
    lemma_normal_and_distinct(first_occurrences(named));
}

/// Whether `id` is one of `list`, character for character.
pub fn holds(list: &Vec<String>, id: &String) -> (found: bool)
    ensures
        found == list.deep_view().contains(id@),
{
    let mut i: usize = 0;
    while i < list.len()
        invariant
            i <= list.len(),
            forall|j: int| 0 <= j < i ==> list.deep_view()[j] != id@,
        decreases list.len() - i,
    {
        if list[i] == *id {
            assert(list.deep_view()[i as int] == id@);
            return true;
        }
        i += 1;
    }
    false
}

/// The entries of `from` that `other` does not hold, character for
/// character, in the order of `from`.
pub fn missing_from(from: &Vec<String>, other: &Vec<String>) -> (out: Vec<String>)
    ensures
        out.deep_view() == absent_from(from.deep_view(), other.deep_view()),
{
    let mut out: Vec<String> = Vec::new();
    let mut i: usize = 0;
    proof {
        reveal(Seq::filter);
        assert(from.deep_view().take(0) =~= Seq::<Mac>::empty());
        assert(out.deep_view() =~= Seq::<Mac>::empty());
    }
    while i < from.len()
        invariant
            i <= from.len(),
            out.deep_view() == absent_from(from.deep_view().take(i as int), other.deep_view()),
        decreases from.len() - i,
    {
        let ghost before = out.deep_view();
        let ghost keep = |id: Mac| !other.deep_view().contains(id);
        proof {
            let seen = from.deep_view().take(i as int);
            assert(from.deep_view().take(i + 1) =~= seen.push(from[i as int]@));
            seen.lemma_filter_push(from[i as int]@, keep);
        }
        if !holds(other, &from[i]) {
            let id = from[i].clone();
            out.push(id);
            assert(out.deep_view() =~= before.push(from[i as int]@));
        }
        i += 1;
    }
    proof {
        assert(from.deep_view().take(from.len() as int) =~= from.deep_view());
    }
    out
}

/// The devices seen at one poll: a set of identifiers in normal form, held
/// in the order in which they were first listed.
#[derive(Debug)]
pub struct Snapshot {
    devices: Vec<String>,
}

impl View for Snapshot {
    type V = Set<Mac>;

    open spec fn view(&self) -> Set<Mac> {
        self.ids().to_set()
    }
}

impl Snapshot {
    #[verifier::type_invariant]
    spec fn distinct_and_normal(self) -> bool {
        &&& self.devices.deep_view().no_duplicates()
        &&& all_normalized(self.devices.deep_view())
    }

    /// The identifiers of the snapshot, each once, in listing order.
    pub closed spec fn ids(&self) -> Seq<Mac> {
        self.devices.deep_view()
    }

    /// The snapshot of an empty network: what a watcher starts from.
    pub fn new() -> (s: Self)
        ensures
            s.ids() == Seq::<Mac>::empty(),
            s@ == Set::<Mac>::empty(),
    {
        let devices: Vec<String> = Vec::new();
        assert(devices.deep_view() =~= Seq::<Mac>::empty());
        assert(devices.deep_view().to_set() =~= Set::<Mac>::empty());
        Snapshot { devices }
    }

    /// The set of the devices that `macs` names. Each identifier is taken
    /// in its normal form; a device named more than once, in whatever case,
    /// is held once, at its first place.
    pub fn from_macs(macs: &Vec<String>) -> (s: Self)
        ensures
            s.ids() == first_occurrences(normalized_all(macs.deep_view())),
            s@ == normalized_all(macs.deep_view()).to_set(),
            all_normalized(s.ids()),
            s.ids().no_duplicates(),
    {
        let mut devices: Vec<String> = Vec::new();
        let mut i: usize = 0;
        let ghost named = normalized_all(macs.deep_view());
        proof {
            assert(named.take(0) =~= Seq::<Mac>::empty());
            assert(devices.deep_view() =~= Seq::<Mac>::empty());
        }
        while i < macs.len()
            invariant
                i <= macs.len(),
                named == normalized_all(macs.deep_view()),
                devices.deep_view() == first_occurrences(named.take(i as int)),
            decreases macs.len() - i,
        {
            let ghost before = devices.deep_view();
            proof {
                let seen = named.take(i + 1);
                assert(seen.drop_last() =~= named.take(i as int));
                assert(seen.last() == normalized(macs[i as int]@));
            }
            let id = normalize(macs[i].as_str());
            if !holds(&devices, &id) {
                devices.push(id);
                assert(devices.deep_view() =~= before.push(normalized(macs[i as int]@)));
            }
            i += 1;
        }
        proof {
            assert(named.take(macs.len() as int) =~= named);
            lemma_first_occurrences(named);
            lemma_normalized_all_is_normal(macs.deep_view());
            lemma_first_occurrences_keep_normal(named);
        }
        Snapshot { devices }
    }

    /// How many devices the snapshot holds.
    pub fn len(&self) -> (n: usize)
        ensures
            n == self.ids().len(),
            n == self@.len(),
    {
        proof {
            use_type_invariant(self);
            self.devices.deep_view().unique_seq_to_set();
        }
        self.devices.len()
    }

    /// Whether the snapshot holds no device.
    pub fn is_empty(&self) -> (empty: bool)
        ensures
            empty == (self.ids().len() == 0),
            empty == (self@ == Set::<Mac>::empty()),
    {
        proof {
            if self.devices.deep_view().len() == 0 {
                assert(self@ =~= Set::<Mac>::empty());
            } else {
                assert(self.devices.deep_view().contains(self.devices.deep_view()[0]));
                assert(self@.contains(self.devices.deep_view()[0]));
            }
        }
        self.devices.len() == 0
    }

    /// Whether the device `id` was present at this poll, in whatever case
    /// `id` is written.
    pub fn contains(&self, id: &String) -> (present: bool)
        ensures
            present == self@.contains(normalized(id@)),
    {
        let normal = normalize(id.as_str());
        holds(&self.devices, &normal)
    }

    /// The identifiers of the snapshot as a list, each once and in normal
    /// form.
    pub fn devices(&self) -> (list: &Vec<String>)
        ensures
            list.deep_view() == self.ids(),
            list.deep_view().no_duplicates(),
            all_normalized(list.deep_view()),
    {
        proof {
            use_type_invariant(self);
        }
        &self.devices
    }
}

impl Clone for Snapshot {
    fn clone(&self) -> (copy: Self)
        ensures
            copy.ids() == self.ids(),
            copy@ == self@,
    {
        proof {
            use_type_invariant(self);
        }
        let devices = self.devices.clone();
        assert(devices.deep_view() =~= self.devices.deep_view()) by {
            assert forall|i: int| 0 <= i < devices.len() implies devices[i]@ == self.devices[i]@ by {
                assert(cloned::<String>(self.devices[i], devices[i]));
            }
        }
        Snapshot { devices }
    }
}

/// What changed between two polls.
#[derive(Debug)]
pub struct PresenceDiff {
    /// Devices present now and absent before, in the order of the current snapshot.
    pub arrived: Vec<String>,
    /// Devices present before and absent now, in the order of the previous snapshot.
    pub departed: Vec<String>,
}

/// Compares two snapshots by identifier. A device in both is in neither
/// list; against an empty `previous` every device of `current` has arrived.
pub fn diff(previous: &Snapshot, current: &Snapshot) -> (d: PresenceDiff)
    ensures
        d.arrived.deep_view() == arrived(previous.ids(), current.ids()),
        d.departed.deep_view() == departed(previous.ids(), current.ids()),
        d.arrived.deep_view().to_set() == current@.difference(previous@),
        d.departed.deep_view().to_set() == previous@.difference(current@),
        d.arrived.deep_view().no_duplicates(),
        d.departed.deep_view().no_duplicates(),
{
    proof {
        use_type_invariant(previous);
        use_type_invariant(current);
        lemma_absent_from_is_difference(current.ids(), previous.ids());
        lemma_absent_from_is_difference(previous.ids(), current.ids());
    }
    let arrived = missing_from(&current.devices, &previous.devices);
    let departed = missing_from(&previous.devices, &current.devices);
    PresenceDiff { arrived, departed }
}

/// As sets, what arrived is the current snapshot without the previous one,
/// and what departed is the previous snapshot without the current one.
pub proof fn diff_is_set_difference(previous: Seq<Mac>, current: Seq<Mac>)
    ensures
        arrived(previous, current).to_set() == current.to_set().difference(previous.to_set()),
        departed(previous, current).to_set() == previous.to_set().difference(current.to_set()),
{
    lemma_absent_from_is_difference(current, previous);
    lemma_absent_from_is_difference(previous, current);
}

/// Nothing is absent from a list that holds every identifier of `from`.
pub proof fn lemma_absent_from_superset(from: Seq<Mac>, other: Seq<Mac>)
    requires
        from.to_set().subset_of(other.to_set()),
    ensures
        absent_from(from, other) == Seq::<Mac>::empty(),
{
    let keep = |id: Mac| !other.contains(id);
    let kept = from.filter(keep);
    if kept.len() > 0 {
        from.lemma_filter_pred(keep, 0);
        assert(kept.contains(kept[0]));
        from.lemma_filter_contains_rev(keep, kept[0]);
        assert(from.to_set().contains(kept[0]));
        assert(other.to_set().contains(kept[0]));
    }
    assert(kept =~= Seq::<Mac>::empty());
}

/// Everything is absent from the empty list.
pub proof fn lemma_absent_from_nothing(from: Seq<Mac>)
    ensures
        absent_from(from, Seq::<Mac>::empty()) == from,
    decreases from.len(),
{
    reveal(Seq::filter);
    let keep = |id: Mac| !Seq::<Mac>::empty().contains(id);
    if from.len() > 0 {
        lemma_absent_from_nothing(from.drop_last());
        assert(keep(from.last()));
        assert(from.drop_last().push(from.last()) =~= from);
    }
}

/// Two snapshots of the same set of devices differ in nothing: no device
/// arrived and none departed.
pub proof fn diff_of_same_set_is_empty(previous: Seq<Mac>, current: Seq<Mac>)
    requires
        previous.to_set() == current.to_set(),
    ensures
        arrived(previous, current) == Seq::<Mac>::empty(),
        departed(previous, current) == Seq::<Mac>::empty(),
{
    lemma_absent_from_superset(current, previous);
    lemma_absent_from_superset(previous, current);
}

/// Against an empty previous snapshot every device of the current one has
/// arrived and none has departed.
pub proof fn diff_from_empty_previous(current: Seq<Mac>)
    ensures
        arrived(Seq::<Mac>::empty(), current) == current,
        departed(Seq::<Mac>::empty(), current) == Seq::<Mac>::empty(),
{
    lemma_absent_from_nothing(current);
    lemma_absent_from_superset(Seq::<Mac>::empty(), current);
}

/// Against an empty current snapshot every device of the previous one has
/// departed and none has arrived.
pub proof fn diff_to_empty_current(previous: Seq<Mac>)
    ensures
        arrived(previous, Seq::<Mac>::empty()) == Seq::<Mac>::empty(),
        departed(previous, Seq::<Mac>::empty()) == previous,
{
    lemma_absent_from_nothing(previous);
    lemma_absent_from_superset(Seq::<Mac>::empty(), previous);
}

} // verus!
