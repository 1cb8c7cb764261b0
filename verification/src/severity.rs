use vstd::prelude::*;

verus! {

/// Gives std's `<str as PartialEq>::eq` its contract: two string slices are
/// equal exactly when they hold the same characters.
pub assume_specification[ <str as PartialEq>::eq ](a: &str, b: &str) -> (equal: bool)
    ensures
        equal == (a@ == b@),
;

/// The rank of a severity label: `critical` > `high` > `medium` > any other label.
pub open spec fn spec_severity_rank(severity: Seq<char>) -> int {
    if severity == "critical"@ {
        3
    } else if severity == "high"@ {
        2
    } else if severity == "medium"@ {
        1
    } else {
        0
    }
}

/// The label that marks the absence of a severity.
pub open spec fn no_severity() -> Seq<char> {
    "none"@
}

/// The more severe of `current` and `next`, the current one on a tie; the
/// label `none` stands for no severity at all.
pub open spec fn spec_max_severity(current: Option<Seq<char>>, next: Seq<char>) -> Option<Seq<char>> {
    let selected = match current {
        Some(c) => if spec_severity_rank(c) >= spec_severity_rank(next) { c } else { next },
        None => next,
    };
    if selected == no_severity() { None } else { Some(selected) }
}

/// The severity that accumulates over `severities`, taken in order.
pub open spec fn fold_severity(severities: Seq<Seq<char>>) -> Option<Seq<char>>
    decreases severities.len(),
{
    if severities.len() == 0 {
        None
    } else {
        spec_max_severity(fold_severity(severities.drop_last()), severities.last())
    }
}

/// The view of an optional string.
pub open spec fn opt_view(s: Option<String>) -> Option<Seq<char>> {
    match s {
        Some(t) => Some(t@),
        None => None,
    }
}

/// The view of an optional string slice.
pub open spec fn opt_str_view(s: Option<&str>) -> Option<Seq<char>> {
    match s {
        Some(t) => Some(t@),
        None => None,
    }
}

/// The rank of a severity label: 3 for `critical`, 2 for `high`, 1 for
/// `medium`, 0 for any other label.
pub fn severity_rank(severity: &str) -> (rank: i32)
    ensures
        rank == spec_severity_rank(severity@),
{
    if severity.eq("critical") {
        3
    } else if severity.eq("high") {
        2
    } else if severity.eq("medium") {
        1
    } else {
        0
    }
}

/// The more severe of the severity so far and the next label, the one so
/// far on a tie; `none` where the result is the label `none`.
pub fn max_severity(current: Option<&str>, next: &str) -> (selected: Option<String>)
    ensures
        opt_view(selected) == spec_max_severity(opt_str_view(current), next@),
{
    let current_rank = match current {
        Some(c) => severity_rank(c),
        None => severity_rank("none"),
    };
    let selected: &str = match current {
        Some(c) => if current_rank >= severity_rank(next) { c } else { next },
        None => next,
    };
    if selected.eq("none") {
        None
    } else {
        Some(selected.to_owned())
    }
}

proof fn lemma_rank_facts()
    ensures
        spec_severity_rank(no_severity()) == 0,
        spec_severity_rank("critical"@) == 3,
        spec_severity_rank("high"@) == 2,
        spec_severity_rank("medium"@) == 1,
{
    reveal_strlit("none");
    reveal_strlit("critical");
    reveal_strlit("high");
    reveal_strlit("medium");
    assert("none"@[0] != "critical"@[0] && "none"@[0] != "high"@[0] && "none"@[0] != "medium"@[0]);
    assert("high"@[0] != "critical"@[0]);
    assert("medium"@[0] != "critical"@[0] && "medium"@[0] != "high"@[0]);
}

/// The most severe label wins, the earliest of them on a tie: the severity
/// accumulated over a list is absent exactly when every label is `none`, and
/// otherwise it is the first label of the highest rank in the list.
pub proof fn lemma_fold_severity_is_first_most_severe(severities: Seq<Seq<char>>)
    ensures
        fold_severity(severities) is None <==> forall|i: int|
            0 <= i < severities.len() ==> #[trigger] severities[i] == no_severity(),
        fold_severity(severities) matches Some(s) ==> exists|k: int|
            0 <= k < severities.len() && #[trigger] severities[k] == s && s != no_severity()
                && (forall|j: int|
                0 <= j < severities.len() ==> spec_severity_rank(#[trigger] severities[j])
                    <= spec_severity_rank(s)) && (forall|j: int|
                0 <= j < k ==> #[trigger] severities[j] == no_severity() || spec_severity_rank(
                    severities[j],
                ) < spec_severity_rank(s)),
    decreases severities.len(),
{
    lemma_rank_facts();
    if severities.len() > 0 {
        let prefix = severities.drop_last();
        let next = severities.last();
        let n = severities.len() - 1;
        lemma_fold_severity_is_first_most_severe(prefix);
        assert(forall|i: int| 0 <= i < n ==> prefix[i] == severities[i]);
        match fold_severity(prefix) {
            None => {
                assert(forall|i: int| 0 <= i < n ==> #[trigger] severities[i] == no_severity());
                if next != no_severity() {
                    assert(severities[n] == next);
                    assert forall|j: int| 0 <= j < severities.len() implies spec_severity_rank(
                        #[trigger] severities[j],
                    ) <= spec_severity_rank(next) by {
                        if j < n {
                            assert(severities[j] == no_severity());
                        }
                    }
                } else {
                    assert forall|i: int| 0 <= i < severities.len() implies #[trigger] severities[i]
                        == no_severity() by {
                        if i < n {
                            assert(prefix[i] == no_severity());
                        }
                    }
                }
            },
            Some(c) => {
                let k = choose|k: int|
                    0 <= k < prefix.len() && #[trigger] prefix[k] == c && c != no_severity() && (
                    forall|j: int|
                        0 <= j < prefix.len() ==> spec_severity_rank(#[trigger] prefix[j])
                            <= spec_severity_rank(c)) && (forall|j: int|
                        0 <= j < k ==> #[trigger] prefix[j] == no_severity() || spec_severity_rank(
                            prefix[j],
                        ) < spec_severity_rank(c));
                assert(severities[k] == c);
                if spec_severity_rank(c) >= spec_severity_rank(next) {
                    assert(fold_severity(severities) == Some(c));
                    assert forall|j: int| 0 <= j < severities.len() implies spec_severity_rank(
                        #[trigger] severities[j],
                    ) <= spec_severity_rank(c) by {
                        if j < n {
                            assert(prefix[j] == severities[j]);
                        }
                    }
                    assert forall|j: int| 0 <= j < k implies #[trigger] severities[j]
                        == no_severity() || spec_severity_rank(severities[j]) < spec_severity_rank(
                        c,
                    ) by {
                        assert(prefix[j] == severities[j]);
                    }
                } else {
                    assert(next != no_severity());
                    assert(fold_severity(severities) == Some(next));
                    assert(severities[n] == next);
                    assert forall|j: int| 0 <= j < severities.len() implies spec_severity_rank(
                        #[trigger] severities[j],
                    ) <= spec_severity_rank(next) by {
                        if j < n {
                            assert(prefix[j] == severities[j]);
                        }
                    }
                    assert forall|j: int| 0 <= j < n implies #[trigger] severities[j]
                        == no_severity() || spec_severity_rank(severities[j]) < spec_severity_rank(
                        next,
                    ) by {
                        assert(prefix[j] == severities[j]);
                    }
                }
                assert(!(forall|i: int|
                    0 <= i < severities.len() ==> #[trigger] severities[i] == no_severity()));
            },
        }
    }
}

} // verus!
