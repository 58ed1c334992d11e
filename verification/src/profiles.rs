//! Evaluation profiles: which acceptance tests a run selects.

use vstd::prelude::*;

use crate::at_registry::{at_label, at_label_round_trip, at_number, is_registered, spec_entry_for, spec_is_failure_at, spec_registry_entry, views, AtLifecycleStatus};
use crate::text::{append_three_digits, str_eq};

verus! {

pub open spec fn smoke_ready_ats() -> Seq<nat> {
    seq![4, 5, 6, 7, 8, 9, 10, 11, 12, 13, 14, 15, 18, 19, 20, 21, 22, 23, 24, 50]
}

pub open spec fn full_matrix_ats() -> Seq<nat> {
    seq![
        4, 5, 6, 7, 8, 9, 10, 11, 12, 13, 14, 15, 16, 17, 18, 19, 20, 21, 22, 23, 24, 25, 26, 27,
        28, 29, 30, 31, 32, 33, 34, 50,
    ]
}

pub open spec fn rr_profile_ats() -> Seq<nat> {
    seq![30, 32, 34]
}

pub open spec fn sa_profile_ats() -> Seq<nat> {
    seq![31, 33, 34]
}

pub open spec fn failure_matrix_ats() -> Seq<nat> {
    seq![25, 26, 27, 28, 29]
}

pub open spec fn observability_mvp_ats() -> Seq<nat> {
    seq![52, 53, 54, 55, 56]
}

/// The acceptance tests a profile selects; an unknown profile runs AT-004.
pub open spec fn profile_ats(profile: Seq<char>) -> Seq<nat> {
    if profile == "smoke_ready"@ {
        smoke_ready_ats()
    } else if profile == "full_matrix"@ {
        full_matrix_ats()
    } else if profile == "rr_profile"@ {
        rr_profile_ats()
    } else if profile == "sa_profile"@ {
        sa_profile_ats()
    } else if profile == "failure_matrix"@ {
        failure_matrix_ats()
    } else if profile == "observability_mvp"@ {
        observability_mvp_ats()
    } else {
        seq![4]
    }
}

pub open spec fn labels_of(ns: Seq<nat>) -> Seq<Seq<char>> {
    ns.map_values(|n: nat| at_label(n))
}

/// The selection of a run: a profile alone selects its tests, a single
/// test alone selects itself, anything else selects nothing.
pub open spec fn spec_select_ats(profile: Option<Seq<char>>, at: Option<Seq<char>>) -> Seq<Seq<char>> {
    match (profile, at) {
        (Some(p), None) => labels_of(profile_ats(p)),
        (None, Some(single)) => seq![single],
        _ => Seq::empty(),
    }
}

/// The identifier of acceptance test `n`.
pub fn at_id_string(n: u32) -> (s: String)
    requires
        n < 1000,
    ensures
        s@ == at_label(n as nat),
{
    let mut s = String::from_str("AT-");
    proof {
        reveal_strlit("AT-");
    }
    append_three_digits(&mut s, n as u64);
    assert(s@ =~= at_label(n as nat));
    s
}

fn labels(ns: Vec<u32>) -> (v: Vec<String>)
    requires
        forall|i: int| 0 <= i < ns.len() ==> ns[i] < 1000,
    ensures
        views(v@) == labels_of(ns@.map_values(|n: u32| n as nat)),
{
    let mut v: Vec<String> = Vec::new();
    let mut i: usize = 0;
    while i < ns.len()
        invariant
            forall|k: int| 0 <= k < ns.len() ==> ns[k] < 1000,
            i <= ns.len(),
            views(v@) == labels_of(ns@.map_values(|n: u32| n as nat)).subrange(0, i as int),
        decreases ns.len() - i,
    {
        let s = at_id_string(ns[i]);
        let ghost before = v@;
        v.push(s);
        proof {
            let target = labels_of(ns@.map_values(|n: u32| n as nat));
            assert(v@ == before.push(s));
            assert(views(before).len() == before.len());
            assert(before.len() == i);
            assert(views(v@).len() == i + 1);
            assert(target[i as int] == at_label(ns[i as int] as nat));
            assert forall|k: int| 0 <= k < i + 1 implies views(v@)[k] == target.subrange(0, i + 1)[k] by {
                if k < i {
                    assert(views(v@)[k] == v@[k]@);
                    assert(v@[k] == before[k]);
                    assert(views(before)[k] == before[k]@);
                    assert(views(before)[k] == target.subrange(0, i as int)[k]);
                }
            }
            assert(views(v@) =~= target.subrange(0, i + 1));
        }
        i = i + 1;
    }
    assert(labels_of(ns@.map_values(|n: u32| n as nat)).subrange(0, ns.len() as int) =~= labels_of(
        ns@.map_values(|n: u32| n as nat),
    ));
    v
}

fn profile_numbers(profile: &str) -> (v: Vec<u32>)
    ensures
        v@.map_values(|n: u32| n as nat) == profile_ats(profile@),
        forall|i: int| 0 <= i < v.len() ==> v[i] < 1000,
{
    let v: Vec<u32> = if str_eq(profile, "smoke_ready") {
        vec![4, 5, 6, 7, 8, 9, 10, 11, 12, 13, 14, 15, 18, 19, 20, 21, 22, 23, 24, 50]
    } else if str_eq(profile, "full_matrix") {
        vec![
            4, 5, 6, 7, 8, 9, 10, 11, 12, 13, 14, 15, 16, 17, 18, 19, 20, 21, 22, 23, 24, 25, 26,
            27, 28, 29, 30, 31, 32, 33, 34, 50,
        ]
    } else if str_eq(profile, "rr_profile") {
        vec![30, 32, 34]
    } else if str_eq(profile, "sa_profile") {
        vec![31, 33, 34]
    } else if str_eq(profile, "failure_matrix") {
        vec![25, 26, 27, 28, 29]
    } else if str_eq(profile, "observability_mvp") {
        vec![52, 53, 54, 55, 56]
    } else {
        vec![4]
    };
    assert(v@.map_values(|n: u32| n as nat) =~= profile_ats(profile@));
    v
}

/// The acceptance tests selected by a profile or a single test identifier.
pub fn select_ats(profile: Option<String>, at: Option<String>) -> (v: Vec<String>)
    ensures
        views(v@) == spec_select_ats(
            match profile {
                Some(p) => Some(p@),
                None => None,
            },
            match at {
                Some(a) => Some(a@),
                None => None,
            },
        ),
{
    match (profile, at) {
        (Some(p), None) => labels(profile_numbers(p.as_str())),
        (None, Some(single)) => {
            let mut v: Vec<String> = Vec::new();
            v.push(single);
            assert(views(v@) =~= seq![single@]);
            v
        },
        _ => {
            let v: Vec<String> = Vec::new();
            assert(views(v@) =~= Seq::<Seq<char>>::empty());
            v
        },
    }
}

proof fn lemma_ready_list(ns: Seq<nat>)
    requires
        forall|i: int| 0 <= i < ns.len() ==> 1 <= #[trigger] ns[i] <= 56 && spec_entry_for(ns[i]).lifecycle
            == AtLifecycleStatus::Ready,
    ensures
        forall|i: int| 0 <= i < ns.len() ==> is_registered(#[trigger] labels_of(ns)[i]) && spec_registry_entry(
            labels_of(ns)[i],
        ).lifecycle == AtLifecycleStatus::Ready,
{
    assert forall|i: int| 0 <= i < ns.len() implies is_registered(#[trigger] labels_of(ns)[i])
        && spec_registry_entry(labels_of(ns)[i]).lifecycle == AtLifecycleStatus::Ready by {
        at_label_round_trip(ns[i], labels_of(ns)[i]);
    }
}

/// Every acceptance test a profile selects is registered and ready to run,
/// whatever the profile's name.
pub proof fn profile_selections_are_ready(profile: Seq<char>)
    ensures
        forall|i: int| 0 <= i < spec_select_ats(Some(profile), None).len() ==> {
            let id = #[trigger] spec_select_ats(Some(profile), None)[i];
            is_registered(id) && spec_registry_entry(id).lifecycle == AtLifecycleStatus::Ready
        },
{
    let ns = profile_ats(profile);
    assert forall|i: int| 0 <= i < ns.len() implies 1 <= #[trigger] ns[i] <= 56 && spec_entry_for(ns[i]).lifecycle
        == AtLifecycleStatus::Ready by {
        let n = ns[i];
        assert(n == 4 || (5 <= n <= 34) || n == 50 || (52 <= n <= 56));
    }
    lemma_ready_list(ns);
}

/// Whether a run for `profile` selects acceptance test `n`.
pub open spec fn profile_selects(profile: Seq<char>, n: nat) -> bool {
    spec_select_ats(Some(profile), None).contains(at_label(n))
}

proof fn lemma_labels_contain(ns: Seq<nat>, n: nat)
    requires
        n < 1000,
        forall|i: int| 0 <= i < ns.len() ==> #[trigger] ns[i] < 1000,
    ensures
        labels_of(ns).contains(at_label(n)) <==> ns.contains(n),
{
    if ns.contains(n) {
        let i = choose|i: int| 0 <= i < ns.len() && ns[i] == n;
        assert(labels_of(ns)[i] == at_label(n));
    }
    if labels_of(ns).contains(at_label(n)) {
        let i = choose|i: int| 0 <= i < labels_of(ns).len() && labels_of(ns)[i] == at_label(n);
        assert(labels_of(ns)[i] == at_label(ns[i]));
        at_label_round_trip(ns[i], at_label(n));
        at_label_round_trip(n, at_label(n));
        assert(ns[i] == n);
    }
}

/// What each profile selects, over every acceptance-test number: the
/// round-robin profile holds the round-robin topology tests AT-030 and
/// AT-032 with the comparison AT-034, the single-address profile holds
/// AT-031 and AT-033 with AT-034, the failure matrix holds exactly the
/// failure-injection tests, the observability profile AT-052 to AT-056,
/// the full matrix AT-004 to AT-034 and AT-050, and the smoke profile the
/// full matrix without the distributed tests AT-016 and AT-017 and without
/// the failure and topology tests. An unknown profile runs AT-004 alone.
pub proof fn profile_contents_law(n: nat, profile: Seq<char>)
    requires
        n < 1000,
    ensures
        profile_selects("rr_profile"@, n) <==> (n == 30 || n == 32 || n == 34),
        profile_selects("sa_profile"@, n) <==> (n == 31 || n == 33 || n == 34),
        profile_selects("failure_matrix"@, n) <==> spec_is_failure_at(at_label(n)),
        profile_selects("observability_mvp"@, n) <==> (52 <= n <= 56),
        profile_selects("full_matrix"@, n) <==> ((4 <= n <= 34) || n == 50),
        profile_selects("smoke_ready"@, n) <==> ((4 <= n <= 24 && n != 16 && n != 17) || n == 50),
        profile != "smoke_ready"@ && profile != "full_matrix"@ && profile != "rr_profile"@ && profile
            != "sa_profile"@ && profile != "failure_matrix"@ && profile != "observability_mvp"@
            ==> spec_select_ats(Some(profile), None) == seq![at_label(4)],
{
    reveal_strlit("rr_profile");
    reveal_strlit("sa_profile");
    reveal_strlit("failure_matrix");
    reveal_strlit("observability_mvp");
    reveal_strlit("full_matrix");
    reveal_strlit("smoke_ready");
    at_label_round_trip(n, at_label(n));
    let rr = rr_profile_ats();
    let sa = sa_profile_ats();
    let fm = failure_matrix_ats();
    let ob = observability_mvp_ats();
    let full = full_matrix_ats();
    let smoke = smoke_ready_ats();
    let names = seq!["smoke_ready"@, "full_matrix"@, "rr_profile"@, "sa_profile"@, "failure_matrix"@, "observability_mvp"@];
    assert(names[0].len() == 11 && names[1].len() == 11 && names[2].len() == 10 && names[3].len() == 10
        && names[4].len() == 14 && names[5].len() == 17);
    assert(names[0][0] != names[1][0] && names[2][0] != names[3][0]);
    assert(forall|a: int, b: int| 0 <= a < b < 6 ==> names[a] != names[b]) by {
        assert forall|a: int, b: int| 0 <= a < b < 6 implies names[a] != names[b] by {
            if names[a].len() == names[b].len() {
                assert(names[a][0] != names[b][0]);
            }
        }
    }
    assert(names[2] != names[0] && names[2] != names[1]);
    assert(names[3] != names[0] && names[3] != names[1] && names[3] != names[2]);
    assert(names[4] != names[0] && names[4] != names[1] && names[4] != names[2] && names[4] != names[3]);
    assert(names[5] != names[0] && names[5] != names[1] && names[5] != names[2] && names[5] != names[3]
        && names[5] != names[4]);
    assert(names[1] != names[0]);
    lemma_labels_contain(rr, n);
    lemma_labels_contain(sa, n);
    lemma_labels_contain(fm, n);
    lemma_labels_contain(ob, n);
    lemma_labels_contain(full, n);
    lemma_labels_contain(smoke, n);
    if n == 30 || n == 32 || n == 34 {
        assert(rr[(n - 30) / 2] == n);
    }
    if n == 31 || n == 33 || n == 34 {
        if n == 34 { assert(sa[2] == n); } else { assert(sa[(n - 31) / 2] == n); }
    }
    if 25 <= n <= 29 {
        assert(fm[n - 25] == n);
    }
    if 52 <= n <= 56 {
        assert(ob[n - 52] == n);
    }
    if 4 <= n <= 34 {
        assert(full[n - 4] == n);
    }
    if n == 50 {
        assert(full[31] == n);
        assert(smoke[19] == n);
    }
    if 4 <= n <= 15 {
        assert(smoke[n - 4] == n);
    }
    if 18 <= n <= 24 {
        assert(smoke[n - 6] == n);
    }
}

} // verus!
