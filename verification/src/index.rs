use vstd::prelude::*;

use crate::model::{AgentFinding, AgentTerraformResource};
use crate::severity::{fold_severity, max_severity, opt_str_view, opt_view, spec_max_severity};

verus! {

/// The record at hand belongs to the AWS resource `uid`.
pub open spec fn owned_by(aws_uid: Option<String>, uid: Seq<char>) -> bool {
    match aws_uid {
        Some(u) => u@ == uid,
        None => false,
    }
}

// ------------------------------------------------- records about a resource

/// What `pick` gives of each item that `owner` assigns to the AWS resource
/// `uid`, in the order of `items`.
pub open spec fn collect_owned<T, U>(
    items: Seq<T>,
    uid: Seq<char>,
    owner: spec_fn(T) -> Option<String>,
    pick: spec_fn(T) -> U,
) -> Seq<U>
    decreases items.len(),
{
    if items.len() == 0 {
        Seq::empty()
    } else {
        let rest = collect_owned(items.drop_last(), uid, owner, pick);
        if owned_by(owner(items.last()), uid) {
            rest.push(pick(items.last()))
        } else {
            rest
        }
    }
}

/// The position in `items` of the item that gives entry `k` of
/// `collect_owned(items, uid, owner, pick)`.
pub open spec fn collect_origin<T, U>(
    items: Seq<T>,
    uid: Seq<char>,
    owner: spec_fn(T) -> Option<String>,
    pick: spec_fn(T) -> U,
    k: int,
) -> int
    decreases items.len(),
{
    if items.len() == 0 {
        0
    } else if k < collect_owned(items.drop_last(), uid, owner, pick).len() {
        collect_origin(items.drop_last(), uid, owner, pick, k)
    } else {
        items.len() - 1
    }
}

/// Each entry collected for `uid` comes from an item assigned to `uid`, and
/// each item assigned to `uid` gives one.
pub proof fn lemma_collect_members<T, U>(
    items: Seq<T>,
    uid: Seq<char>,
    owner: spec_fn(T) -> Option<String>,
    pick: spec_fn(T) -> U,
)
    ensures
        forall|i: int|
            0 <= i < items.len() && owned_by(owner(items[i]), uid) ==> collect_owned(
                items,
                uid,
                owner,
                pick,
            ).contains(#[trigger] pick(items[i])),
        forall|k: int|
            0 <= k < collect_owned(items, uid, owner, pick).len() ==> {
                let i = #[trigger] collect_origin(items, uid, owner, pick, k);
                &&& 0 <= i < items.len()
                &&& owned_by(owner(items[i]), uid)
                &&& pick(items[i]) == collect_owned(items, uid, owner, pick)[k]
            },
    decreases items.len(),
{
    if items.len() > 0 {
        let prefix = items.drop_last();
        let n = items.len() - 1;
        lemma_collect_members(prefix, uid, owner, pick);
        let all = collect_owned(items, uid, owner, pick);
        let before = collect_owned(prefix, uid, owner, pick);
        assert forall|i: int| 0 <= i < items.len() && owned_by(owner(items[i]), uid) implies collect_owned(
            items,
            uid,
            owner,
            pick,
        ).contains(#[trigger] pick(items[i])) by {
            if i < n {
                assert(prefix[i] == items[i]);
                let k = choose|k: int| 0 <= k < before.len() && before[k] == pick(prefix[i]);
                assert(all[k] == before[k]);
            } else {
                assert(all[all.len() - 1] == pick(items[n]));
            }
        }
        assert forall|k: int| 0 <= k < collect_owned(items, uid, owner, pick).len() implies {
            let i = #[trigger] collect_origin(items, uid, owner, pick, k);
            &&& 0 <= i < items.len()
            &&& owned_by(owner(items[i]), uid)
            &&& pick(items[i]) == collect_owned(items, uid, owner, pick)[k]
        } by {
            if k < before.len() {
                assert(all[k] == before[k]);
                let i = collect_origin(prefix, uid, owner, pick, k);
                assert(prefix[i] == items[i]);
            } else {
                assert(owned_by(owner(items[n]), uid));
            }
        }
    }
}

/// What is collected for a resource keeps the order of the items it comes
/// from: a later entry comes from a later item.
pub proof fn lemma_collect_in_order<T, U>(
    items: Seq<T>,
    uid: Seq<char>,
    owner: spec_fn(T) -> Option<String>,
    pick: spec_fn(T) -> U,
)
    ensures
        forall|k1: int, k2: int|
            0 <= k1 < k2 < collect_owned(items, uid, owner, pick).len() ==> #[trigger] collect_origin(
                items,
                uid,
                owner,
                pick,
                k1,
            ) < #[trigger] collect_origin(items, uid, owner, pick, k2),
    decreases items.len(),
{
    if items.len() > 0 {
        let prefix = items.drop_last();
        lemma_collect_in_order(prefix, uid, owner, pick);
        lemma_collect_members(prefix, uid, owner, pick);
        let before = collect_owned(prefix, uid, owner, pick);
        assert forall|k1: int, k2: int|
            0 <= k1 < k2 < collect_owned(items, uid, owner, pick).len() implies #[trigger] collect_origin(
            items,
            uid,
            owner,
            pick,
            k1,
        ) < #[trigger] collect_origin(items, uid, owner, pick, k2) by {
            if k2 < before.len() {
                assert(collect_origin(prefix, uid, owner, pick, k1) < collect_origin(prefix, uid, owner, pick, k2));
            } else {
                assert(collect_origin(prefix, uid, owner, pick, k1) < prefix.len());
            }
        }
    }
}

/// Collecting two things of the same items for one resource gives as many of each.
pub proof fn lemma_collect_same_length<T, U, W>(
    items: Seq<T>,
    uid: Seq<char>,
    owner: spec_fn(T) -> Option<String>,
    pick: spec_fn(T) -> U,
    other: spec_fn(T) -> W,
)
    ensures
        collect_owned(items, uid, owner, pick).len() == collect_owned(items, uid, owner, other).len(),
    decreases items.len(),
{
    if items.len() > 0 {
        lemma_collect_same_length(items.drop_last(), uid, owner, pick, other);
    }
}

/// The AWS resource that a Terraform resource instance maps to.
pub open spec fn instance_owner() -> spec_fn(AgentTerraformResource) -> Option<String> {
    |instance: AgentTerraformResource| instance.aws_uid
}

/// The address of a Terraform resource instance.
pub open spec fn instance_address() -> spec_fn(AgentTerraformResource) -> String {
    |instance: AgentTerraformResource| instance.address
}

/// The AWS resource that a finding is about.
pub open spec fn finding_owner() -> spec_fn(AgentFinding) -> Option<String> {
    |finding: AgentFinding| finding.aws_uid
}

/// The id of a finding.
pub open spec fn finding_id() -> spec_fn(AgentFinding) -> String {
    |finding: AgentFinding| finding.id
}

/// The severity label of a finding.
pub open spec fn finding_severity() -> spec_fn(AgentFinding) -> Seq<char> {
    |finding: AgentFinding| finding.severity@
}

/// The addresses of the Terraform resource instances mapped to the AWS
/// resource `uid`, in the order of `instances`.
pub open spec fn addresses_for(instances: Seq<AgentTerraformResource>, uid: Seq<char>) -> Seq<String> {
    collect_owned(instances, uid, instance_owner(), instance_address())
}

/// The ids of the findings about the AWS resource `uid`, in the order of `findings`.
pub open spec fn finding_ids_for(findings: Seq<AgentFinding>, uid: Seq<char>) -> Seq<String> {
    collect_owned(findings, uid, finding_owner(), finding_id())
}

/// The severity labels of the findings about the AWS resource `uid`, in order.
pub open spec fn severities_for(findings: Seq<AgentFinding>, uid: Seq<char>) -> Seq<Seq<char>> {
    collect_owned(findings, uid, finding_owner(), finding_severity())
}

/// A resource has as many severity labels as finding ids.
pub proof fn lemma_same_owners(findings: Seq<AgentFinding>, uid: Seq<char>)
    ensures
        severities_for(findings, uid).len() == finding_ids_for(findings, uid).len(),
{
    lemma_collect_same_length(findings, uid, finding_owner(), finding_severity(), finding_id());
}

// ------------------------------------------------------ entries by resource

/// Something recorded for one AWS resource.
pub struct UidEntry<V> {
    pub aws_uid: String,
    pub value: V,
}

/// No two entries are for the same AWS resource.
pub open spec fn distinct_uids<V>(entries: Seq<UidEntry<V>>) -> bool {
    forall|i: int, j: int|
        0 <= i < entries.len() && 0 <= j < entries.len() && i != j ==> #[trigger] entries[i].aws_uid@
            != #[trigger] entries[j].aws_uid@
}

/// The map that a list of entries stands for.
pub open spec fn entry_map<V: View>(entries: Seq<UidEntry<V>>) -> Map<Seq<char>, V::V>
    decreases entries.len(),
{
    if entries.len() == 0 {
        Map::empty()
    } else {
        entry_map(entries.drop_last()).insert(entries.last().aws_uid@, entries.last().value@)
    }
}

proof fn lemma_entry_map<V: View>(entries: Seq<UidEntry<V>>)
    requires
        distinct_uids(entries),
    ensures
        forall|i: int|
            0 <= i < entries.len() ==> #[trigger] entry_map(entries).contains_key(entries[i].aws_uid@)
                && entry_map(entries)[entries[i].aws_uid@] == entries[i].value@,
        forall|uid: Seq<char>|
            #[trigger] entry_map(entries).contains_key(uid) ==> exists|i: int|
                0 <= i < entries.len() && #[trigger] entries[i].aws_uid@ == uid,
    decreases entries.len(),
{
    if entries.len() > 0 {
        let prefix = entries.drop_last();
        assert(distinct_uids(prefix)) by {
            assert forall|i: int, j: int|
                0 <= i < prefix.len() && 0 <= j < prefix.len() && i != j implies #[trigger] prefix[i].aws_uid@
                != #[trigger] prefix[j].aws_uid@ by {
                assert(prefix[i] == entries[i] && prefix[j] == entries[j]);
            }
        }
        lemma_entry_map(prefix);
        let n = entries.len() - 1;
        let m = entry_map(entries);
        assert(m == entry_map(prefix).insert(entries[n].aws_uid@, entries[n].value@));
        assert forall|i: int| 0 <= i < entries.len() implies #[trigger] m.contains_key(
            entries[i].aws_uid@,
        ) && m[entries[i].aws_uid@] == entries[i].value@ by {
            if i < n {
                assert(prefix[i] == entries[i]);
                assert(entries[i].aws_uid@ != entries[n].aws_uid@);
                assert(entry_map(prefix).contains_key(prefix[i].aws_uid@));
            }
        }
        assert forall|uid: Seq<char>| #[trigger] m.contains_key(uid) implies exists|i: int|
            0 <= i < entries.len() && #[trigger] entries[i].aws_uid@ == uid by {
            if uid != entries[n].aws_uid@ {
                assert(entry_map(prefix).contains_key(uid));
                let k = choose|k: int| 0 <= k < prefix.len() && #[trigger] prefix[k].aws_uid@ == uid;
                assert(entries[k] == prefix[k]);
            } else {
                assert(entries[n].aws_uid@ == uid);
            }
        }
    }
}

/// Position of the entry for `uid`, if there is one.
fn find_uid<V>(entries: &Vec<UidEntry<V>>, uid: &String) -> (found: Option<usize>)
    ensures
        match found {
            Some(p) => p < entries@.len() && entries@[p as int].aws_uid@ == uid@,
            None => forall|j: int| 0 <= j < entries@.len() ==> #[trigger] entries@[j].aws_uid@ != uid@,
        },
{
    let mut i: usize = 0;
    while i < entries.len()
        invariant
            0 <= i <= entries@.len(),
            forall|j: int| 0 <= j < i ==> #[trigger] entries@[j].aws_uid@ != uid@,
        decreases entries@.len() - i,
    {
        if entries[i].aws_uid == *uid {
            return Some(i);
        }
        i = i + 1;
    }
    None
}

/// The entries are exactly the AWS resources of which `present` holds, each
/// with the value that `expected` gives it.
pub open spec fn groups<V: View>(
    entries: Seq<UidEntry<V>>,
    expected: spec_fn(Seq<char>) -> V::V,
    present: spec_fn(Seq<char>) -> bool,
) -> bool {
    &&& distinct_uids(entries)
    &&& forall|p: int|
        0 <= p < entries.len() ==> #[trigger] entries[p].value@ == expected(entries[p].aws_uid@)
            && present(entries[p].aws_uid@)
    &&& forall|uid: Seq<char>|
        #[trigger] present(uid) ==> exists|p: int|
            0 <= p < entries.len() && #[trigger] entries[p].aws_uid@ == uid
}

/// Replacing the value of the entry for one resource, where only that
/// resource's expected value changes, keeps the entries a grouping.
proof fn lemma_groups_update<V: View>(
    before: Seq<UidEntry<V>>,
    after: Seq<UidEntry<V>>,
    p: int,
    expected: spec_fn(Seq<char>) -> V::V,
    present: spec_fn(Seq<char>) -> bool,
    next_expected: spec_fn(Seq<char>) -> V::V,
    next_present: spec_fn(Seq<char>) -> bool,
)
    requires
        groups(before, expected, present),
        0 <= p < before.len(),
        after.len() == before.len(),
        forall|q: int| 0 <= q < before.len() && q != p ==> #[trigger] after[q] == before[q],
        after[p].aws_uid == before[p].aws_uid,
        after[p].value@ == next_expected(before[p].aws_uid@),
        next_present(before[p].aws_uid@),
        forall|uid: Seq<char>| uid != before[p].aws_uid@ ==> #[trigger] next_expected(uid) == expected(uid),
        forall|uid: Seq<char>| uid != before[p].aws_uid@ ==> #[trigger] next_present(uid) == present(uid),
    ensures
        groups(after, next_expected, next_present),
{
    let key = before[p].aws_uid@;
    assert forall|i: int, j: int|
        0 <= i < after.len() && 0 <= j < after.len() && i != j implies #[trigger] after[i].aws_uid@
        != #[trigger] after[j].aws_uid@ by {
        assert(after[i].aws_uid == before[i].aws_uid);
        assert(after[j].aws_uid == before[j].aws_uid);
    }
    assert forall|q: int| 0 <= q < after.len() implies #[trigger] after[q].value@ == next_expected(
        after[q].aws_uid@,
    ) && next_present(after[q].aws_uid@) by {
        if q != p {
            assert(after[q] == before[q]);
            assert(before[q].aws_uid@ != key);
            assert(before[q].value@ == expected(before[q].aws_uid@));
        }
    }
    assert forall|uid: Seq<char>| #[trigger] next_present(uid) implies exists|q: int|
        0 <= q < after.len() && #[trigger] after[q].aws_uid@ == uid by {
        if uid != key {
            assert(present(uid));
            let q = choose|q: int| 0 <= q < before.len() && #[trigger] before[q].aws_uid@ == uid;
            assert(after[q] == before[q]);
        } else {
            assert(after[p].aws_uid@ == uid);
        }
    }
}

/// Adding an entry for a resource that had none, where only that resource's
/// expected value changes, keeps the entries a grouping.
proof fn lemma_groups_push<V: View>(
    before: Seq<UidEntry<V>>,
    entry: UidEntry<V>,
    expected: spec_fn(Seq<char>) -> V::V,
    present: spec_fn(Seq<char>) -> bool,
    next_expected: spec_fn(Seq<char>) -> V::V,
    next_present: spec_fn(Seq<char>) -> bool,
)
    requires
        groups(before, expected, present),
        forall|q: int| 0 <= q < before.len() ==> #[trigger] before[q].aws_uid@ != entry.aws_uid@,
        entry.value@ == next_expected(entry.aws_uid@),
        next_present(entry.aws_uid@),
        forall|uid: Seq<char>| uid != entry.aws_uid@ ==> #[trigger] next_expected(uid) == expected(uid),
        forall|uid: Seq<char>| uid != entry.aws_uid@ ==> #[trigger] next_present(uid) == present(uid),
    ensures
        groups(before.push(entry), next_expected, next_present),
{
    let after = before.push(entry);
    let n = before.len() as int;
    assert forall|q: int| 0 <= q < n implies #[trigger] after[q] == before[q] by {}
    assert(after[n] == entry);
    assert forall|i: int, j: int|
        0 <= i < after.len() && 0 <= j < after.len() && i != j implies #[trigger] after[i].aws_uid@
        != #[trigger] after[j].aws_uid@ by {
        if i != n && j != n {
            assert(after[i] == before[i] && after[j] == before[j]);
        }
    }
    assert forall|q: int| 0 <= q < after.len() implies #[trigger] after[q].value@ == next_expected(
        after[q].aws_uid@,
    ) && next_present(after[q].aws_uid@) by {
        if q != n {
            assert(after[q] == before[q]);
            assert(before[q].value@ == expected(before[q].aws_uid@));
        }
    }
    assert forall|uid: Seq<char>| #[trigger] next_present(uid) implies exists|q: int|
        0 <= q < after.len() && #[trigger] after[q].aws_uid@ == uid by {
        if uid != entry.aws_uid@ {
            assert(present(uid));
            let q = choose|q: int| 0 <= q < before.len() && #[trigger] before[q].aws_uid@ == uid;
            assert(after[q] == before[q]);
        } else {
            assert(after[n].aws_uid@ == uid);
        }
    }
}

/// The map of a grouping holds exactly the resources of which `present`
/// holds, each with the value that `expected` gives it.
proof fn lemma_groups_map<V: View>(
    entries: Seq<UidEntry<V>>,
    expected: spec_fn(Seq<char>) -> V::V,
    present: spec_fn(Seq<char>) -> bool,
)
    requires
        groups(entries, expected, present),
    ensures
        forall|uid: Seq<char>| #[trigger] entry_map(entries).contains_key(uid) <==> present(uid),
        forall|uid: Seq<char>|
            #[trigger] entry_map(entries).contains_key(uid) ==> entry_map(entries)[uid] == expected(uid),
{
    lemma_entry_map(entries);
    assert forall|uid: Seq<char>| #[trigger] entry_map(entries).contains_key(uid) implies present(uid)
        && entry_map(entries)[uid] == expected(uid) by {
        let p = choose|p: int| 0 <= p < entries.len() && #[trigger] entries[p].aws_uid@ == uid;
        assert(entries[p].value@ == expected(entries[p].aws_uid@));
    }
    assert forall|uid: Seq<char>| #[trigger] present(uid) implies entry_map(entries).contains_key(uid) by {
        let p = choose|p: int| 0 <= p < entries.len() && #[trigger] entries[p].aws_uid@ == uid;
    }
}

// -------------------------------------------------------- terraform index

/// The Terraform resource instances grouped by the AWS resource that each
/// one maps to.
pub struct TerraformIndex {
    entries: Vec<UidEntry<Vec<String>>>,
}

impl View for TerraformIndex {
    type V = Map<Seq<char>, Seq<String>>;

    /// The addresses recorded for each AWS resource that has any.
    closed spec fn view(&self) -> Map<Seq<char>, Seq<String>> {
        entry_map(self.entries@)
    }
}

impl TerraformIndex {
    #[verifier::type_invariant]
    spec fn distinct(self) -> bool {
        distinct_uids(self.entries@)
    }

    /// The addresses recorded for `uid`, none where it has no entry.
    pub open spec fn spec_addresses(self, uid: Seq<char>) -> Seq<String> {
        if self@.contains_key(uid) {
            self@[uid]
        } else {
            Seq::empty()
        }
    }

    /// The addresses recorded for `uid`, or none.
    pub fn addresses(&self, uid: &String) -> (addresses: Vec<String>)
        ensures
            addresses@ == self.spec_addresses(uid@),
    {
        proof {
            use_type_invariant(self);
            lemma_entry_map(self.entries@);
        }
        match find_uid(&self.entries, uid) {
            Some(p) => {
                let found = self.entries[p].value.clone();
                proof {
                    assert(entry_map(self.entries@).contains_key(self.entries@[p as int].aws_uid@));
                    assert(found@ =~= self.entries@[p as int].value@);
                }
                found
            },
            None => {
                proof {
                    if self@.contains_key(uid@) {
                        let k = choose|k: int| 0 <= k < self.entries@.len() && #[trigger] self.entries@[k].aws_uid@ == uid@;
                    }
                }
                Vec::new()
            },
        }
    }
}

/// The addresses that `instances` map to each AWS resource.
pub open spec fn addresses_by_uid(instances: Seq<AgentTerraformResource>) -> spec_fn(Seq<char>) -> Seq<String> {
    |uid: Seq<char>| addresses_for(instances, uid)
}

/// The AWS resources to which some of `instances` map.
pub open spec fn has_addresses(instances: Seq<AgentTerraformResource>) -> spec_fn(Seq<char>) -> bool {
    |uid: Seq<char>| addresses_for(instances, uid).len() > 0
}

pub fn terraform_by_uid(resource_instances: &[AgentTerraformResource]) -> (index: TerraformIndex)
    ensures
        forall|uid: Seq<char>| #[trigger]
            index@.contains_key(uid) <==> addresses_for(resource_instances@, uid).len() > 0,
        forall|uid: Seq<char>| #[trigger]
            index@.contains_key(uid) ==> index@[uid] == addresses_for(resource_instances@, uid),
{
    let mut entries: Vec<UidEntry<Vec<String>>> = Vec::new();
    for i in 0..resource_instances.len()
        invariant
            groups(
                entries@,
                addresses_by_uid(resource_instances@.take(i as int)),
                has_addresses(resource_instances@.take(i as int)),
            ),
    {
        let ghost before = entries@;
        let ghost done = resource_instances@.take(i as int);
        let ghost next = resource_instances@.take(i + 1);
        proof {
            assert(next.drop_last() =~= done);
            assert(next.last() == resource_instances@[i as int]);
        }
        let instance = &resource_instances[i];
        match &instance.aws_uid {
            None => {
                proof {
                    assert(addresses_by_uid(next) =~= addresses_by_uid(done));
                    assert(has_addresses(next) =~= has_addresses(done));
                }
            },
            Some(aws_uid) => {
                proof {
                    assert forall|uid: Seq<char>| #[trigger]
                        addresses_for(next, uid) == if uid == aws_uid@ {
                            addresses_for(done, uid).push(instance.address)
                        } else {
                            addresses_for(done, uid)
                        } by {}
                }
                match find_uid(&entries, aws_uid) {
                    Some(p) => {
                        entries[p].value.push(instance.address.clone());
                        proof {
                            assert(entries@[p as int].value@ =~= before[p as int].value@.push(instance.address));
                            assert(before[p as int].value@ == addresses_by_uid(done)(aws_uid@));
                            lemma_groups_update(
                                before,
                                entries@,
                                p as int,
                                addresses_by_uid(done),
                                has_addresses(done),
                                addresses_by_uid(next),
                                has_addresses(next),
                            );
                        }
                    },
                    None => {
                        let mut addresses: Vec<String> = Vec::new();
                        addresses.push(instance.address.clone());
                        let entry = UidEntry { aws_uid: aws_uid.clone(), value: addresses };
                        proof {
                            assert(!has_addresses(done)(aws_uid@)) by {
                                if has_addresses(done)(aws_uid@) {
                                    let q = choose|q: int| 0 <= q < before.len() && #[trigger] before[q].aws_uid@ == aws_uid@;
                                }
                            }
                            assert(entry.value@ =~= addresses_for(next, aws_uid@));
                            lemma_groups_push(
                                before,
                                entry,
                                addresses_by_uid(done),
                                has_addresses(done),
                                addresses_by_uid(next),
                                has_addresses(next),
                            );
                        }
                        entries.push(entry);
                    },
                }
            },
        }
    }
    proof {
        assert(resource_instances@.take(resource_instances@.len() as int) =~= resource_instances@);
        lemma_groups_map(entries@, addresses_by_uid(resource_instances@), has_addresses(resource_instances@));
    }
    TerraformIndex { entries }
}

// --------------------------------------------------------- findings index

/// What the findings say of one AWS resource: their ids and the highest severity.
pub struct ResourceFindings {
    pub ids: Vec<String>,
    pub severity: Option<String>,
}

impl View for ResourceFindings {
    type V = (Seq<String>, Option<Seq<char>>);

    open spec fn view(&self) -> (Seq<String>, Option<Seq<char>>) {
        (self.ids@, opt_view(self.severity))
    }
}

/// The findings grouped by the AWS resource that each one is about.
pub struct FindingsIndex {
    entries: Vec<UidEntry<ResourceFindings>>,
}

impl View for FindingsIndex {
    type V = Map<Seq<char>, (Seq<String>, Option<Seq<char>>)>;

    /// The finding ids and highest severity recorded for each AWS resource
    /// that has findings.
    closed spec fn view(&self) -> Map<Seq<char>, (Seq<String>, Option<Seq<char>>)> {
        entry_map(self.entries@)
    }
}

/// What `findings` say of the AWS resource `uid`.
pub open spec fn expected_summary(findings: Seq<AgentFinding>, uid: Seq<char>) -> (Seq<String>, Option<Seq<char>>) {
    (finding_ids_for(findings, uid), fold_severity(severities_for(findings, uid)))
}

impl FindingsIndex {
    #[verifier::type_invariant]
    spec fn distinct(self) -> bool {
        distinct_uids(self.entries@)
    }

    /// What the findings say of `uid`, if they say anything.
    pub fn get(&self, uid: &String) -> (found: Option<&ResourceFindings>)
        ensures
            match found {
                Some(f) => self@.contains_key(uid@) && self@[uid@] == f@,
                None => !self@.contains_key(uid@),
            },
    {
        proof {
            use_type_invariant(self);
            lemma_entry_map(self.entries@);
        }
        match find_uid(&self.entries, uid) {
            Some(p) => {
                proof {
                    assert(entry_map(self.entries@).contains_key(self.entries@[p as int].aws_uid@));
                }
                Some(&self.entries[p].value)
            },
            None => {
                proof {
                    if self@.contains_key(uid@) {
                        let k = choose|k: int| 0 <= k < self.entries@.len() && #[trigger] self.entries@[k].aws_uid@ == uid@;
                    }
                }
                None
            },
        }
    }
}

/// What `findings` say of each AWS resource.
pub open spec fn summaries_by_uid(findings: Seq<AgentFinding>) -> spec_fn(Seq<char>) -> (Seq<String>, Option<Seq<char>>) {
    |uid: Seq<char>| expected_summary(findings, uid)
}

/// The AWS resources that some of `findings` are about.
pub open spec fn has_findings(findings: Seq<AgentFinding>) -> spec_fn(Seq<char>) -> bool {
    |uid: Seq<char>| finding_ids_for(findings, uid).len() > 0
}

proof fn lemma_fold_push(severities: Seq<Seq<char>>, next: Seq<char>)
    ensures
        fold_severity(severities.push(next)) == spec_max_severity(fold_severity(severities), next),
{
    assert(severities.push(next).drop_last() =~= severities);
}

pub fn findings_by_uid(findings: &[AgentFinding]) -> (index: FindingsIndex)
    ensures
        forall|uid: Seq<char>| #[trigger]
            index@.contains_key(uid) <==> finding_ids_for(findings@, uid).len() > 0,
        forall|uid: Seq<char>| #[trigger]
            index@.contains_key(uid) ==> index@[uid] == expected_summary(findings@, uid),
{
    let mut entries: Vec<UidEntry<ResourceFindings>> = Vec::new();
    for i in 0..findings.len()
        invariant
            groups(entries@, summaries_by_uid(findings@.take(i as int)), has_findings(findings@.take(i as int))),
    {
        let ghost before = entries@;
        let ghost done = findings@.take(i as int);
        let ghost next = findings@.take(i + 1);
        proof {
            assert(next.drop_last() =~= done);
            assert(next.last() == findings@[i as int]);
        }
        let finding = &findings[i];
        match &finding.aws_uid {
            None => {
                proof {
                    assert forall|uid: Seq<char>| #[trigger]
                        finding_ids_for(next, uid) == finding_ids_for(done, uid) by {}
                    assert forall|uid: Seq<char>| #[trigger]
                        severities_for(next, uid) == severities_for(done, uid) by {}
                    assert(summaries_by_uid(next) =~= summaries_by_uid(done));
                    assert(has_findings(next) =~= has_findings(done));
                }
            },
            Some(aws_uid) => {
                proof {
                    assert forall|uid: Seq<char>| #[trigger]
                        finding_ids_for(next, uid) == if uid == aws_uid@ {
                            finding_ids_for(done, uid).push(finding.id)
                        } else {
                            finding_ids_for(done, uid)
                        } by {}
                    assert forall|uid: Seq<char>| #[trigger]
                        severities_for(next, uid) == if uid == aws_uid@ {
                            severities_for(done, uid).push(finding.severity@)
                        } else {
                            severities_for(done, uid)
                        } by {}
                    lemma_fold_push(severities_for(done, aws_uid@), finding.severity@);
                }
                match find_uid(&entries, aws_uid) {
                    Some(p) => {
                        proof {
                            assert(before[p as int].value@ == summaries_by_uid(done)(aws_uid@));
                        }
                        let current: Option<&str> = match &entries[p].value.severity {
                            Some(s) => Some(s.as_str()),
                            None => None,
                        };
                        assert(opt_str_view(current) == opt_view(before[p as int].value.severity));
                        let severity = max_severity(current, finding.severity.as_str());
                        entries[p].value.ids.push(finding.id.clone());
                        entries[p].value.severity = severity;
                        proof {
                            assert(entries@[p as int].value.ids@ =~= before[p as int].value.ids@.push(finding.id));
                            lemma_groups_update(
                                before,
                                entries@,
                                p as int,
                                summaries_by_uid(done),
                                has_findings(done),
                                summaries_by_uid(next),
                                has_findings(next),
                            );
                        }
                    },
                    None => {
                        let mut ids: Vec<String> = Vec::new();
                        ids.push(finding.id.clone());
                        let severity = max_severity(None, finding.severity.as_str());
                        let entry = UidEntry { aws_uid: aws_uid.clone(), value: ResourceFindings { ids, severity } };
                        proof {
                            assert(!has_findings(done)(aws_uid@)) by {
                                if has_findings(done)(aws_uid@) {
                                    let q = choose|q: int| 0 <= q < before.len() && #[trigger] before[q].aws_uid@ == aws_uid@;
                                }
                            }
                            assert(severities_for(done, aws_uid@).len() == 0) by {
                                lemma_same_owners(done, aws_uid@);
                            }
                            assert(entry.value.ids@ =~= finding_ids_for(next, aws_uid@));
                            lemma_groups_push(
                                before,
                                entry,
                                summaries_by_uid(done),
                                has_findings(done),
                                summaries_by_uid(next),
                                has_findings(next),
                            );
                        }
                        entries.push(entry);
                    },
                }
            },
        }
    }
    proof {
        assert(findings@.take(findings@.len() as int) =~= findings@);
        lemma_groups_map(entries@, summaries_by_uid(findings@), has_findings(findings@));
    }
    FindingsIndex { entries }
}

} // verus!
