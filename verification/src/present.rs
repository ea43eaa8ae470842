//! Every target of an extraction that ended well is installed.
//!
//! An extraction ends well only if it installed as many members as there are
//! targets and every target is among them. Where the targets differ from
//! each other, that is one member for each target; where, besides, no target
//! is the backup or the staging file of another, each of these members is at
//! its place when the extraction ends.

use vstd::prelude::*;
use vstd::set_lib::lemma_len_subset;
use crate::catalog::among;
use crate::extract::{
    covers, extract_begin, extract_next, extract_scan, extract_steps,
    law_extraction_is_complete, wanted, wanted_at, ExtractState, Job, Stage,
};
use crate::files::{Exchange, Files, Reply, Request};
use crate::installed::{all_kept, kept, law_extracted_members_are_installed, tidy};
use crate::paths::{backup_suffix, file_name, staging_suffix};
use crate::protocol::{outcome_of, run_of, Turn};
use crate::text::{lowered, same_ignoring_case};

verus! {

/// Whether no two of `names` are the same but for the case of their letters.
pub open spec fn distinct(names: Seq<Seq<char>>) -> bool {
    forall|a: int, b: int|
        #![trigger names[a], names[b]]
        0 <= a < b < names.len() ==> !same_ignoring_case(names[a], names[b])
}

/// Whether none of `names` is another of them followed by the suffix of a
/// backup or of a staging file, whatever the case of their letters.
pub open spec fn apart(names: Seq<Seq<char>>) -> bool {
    forall|a: int, b: int|
        #![trigger names[a], names[b]]
        0 <= a < names.len() && 0 <= b < names.len() ==> lowered(names[a]) != lowered(names[b])
            + backup_suffix() && lowered(names[a]) != lowered(names[b]) + staging_suffix()
}

/// Whether the member `index` of the archive goes by a wanted name.
pub open spec fn picked(job: Job, index: int) -> bool {
    &&& 0 <= index < job.entries.len()
    &&& job.entries[index].name is Ok
    &&& wanted(job.targets, job.entries[index].name->Ok_0)
}

/// The file name of the member `index`.
pub open spec fn base_of(job: Job, index: int) -> Seq<char> {
    file_name(job.entries[index].name->Ok_0->Some_0)
}

/// The number of members before the member `upto` that go by a wanted name.
pub open spec fn rank(job: Job, upto: int) -> int
    decreases upto,
{
    if upto <= 0 {
        0
    } else if picked(job, upto - 1) {
        rank(job, upto - 1) + 1
    } else {
        rank(job, upto - 1)
    }
}

/// Whether the names `found` are the file names of the members before the
/// member `before` that go by a wanted name, in the order of the archive.
pub open spec fn listed(job: Job, found: Seq<Seq<char>>, before: int) -> bool {
    &&& found.len() == rank(job, before)
    &&& forall|index: int|
        0 <= index < before && #[trigger] picked(job, index) ==> 0 <= rank(job, index)
            < found.len() && found[rank(job, index)] == base_of(job, index)
}

/// Whether an extraction in state `s` has installed every wanted member
/// before the one it stands at, once each.
pub open spec fn in_order(s: ExtractState) -> bool {
    match s.stage {
        Stage::Opening { refused } => true,
        Stage::Announcing => s.found.len() == 0,
        Stage::Naming { name, content } => wanted_at(s.job, s.next, name) && listed(
            s.job,
            s.found,
            s.next,
        ),
        Stage::Writing { name } => wanted_at(s.job, s.next, name) && listed(s.job, s.found, s.next),
        Stage::Installing { name, install } => wanted_at(s.job, s.next, name) && listed(
            s.job,
            s.found,
            s.next,
        ),
    }
}

/// Whether the turn `turn` of an extraction of `job` leaves it in order.
pub open spec fn stays_in_order(job: Job, turn: Turn<ExtractState, Seq<Seq<char>>>) -> bool {
    match turn {
        Turn::Ask(s, _) => s.job == job && in_order(s),
        Turn::Finished(Ok(found)) => listed(job, found, job.entries.len() as int),
        Turn::Finished(Err(_)) => true,
    }
}

/// Whether a member that matches `target` is at its place in `files`.
pub open spec fn present(job: Job, files: Files, target: Seq<char>) -> bool {
    exists|name: Seq<char>| #[trigger]
        same_ignoring_case(name, target) && kept(job, files, name, job.entries.len() as int)
}

/// Whether every target of `job` is present in `files`.
pub open spec fn all_present(job: Job, files: Files) -> bool {
    forall|j: int| 0 <= j < job.targets.len() ==> present(job, files, #[trigger] job.targets[j])
}

/// The number of wanted members is never negative.
proof fn lemma_rank_counts(job: Job, upto: int)
    ensures
        0 <= rank(job, upto),
    decreases upto,
{
    if upto > 0 {
        lemma_rank_counts(job, upto - 1);
    }
}

/// The number of wanted members grows with the members counted, and by one
/// at least past a wanted member.
proof fn lemma_rank_grows(job: Job, a: int, b: int)
    requires
        0 <= a <= b,
    ensures
        0 <= rank(job, a) <= rank(job, b),
        picked(job, a) && a < b ==> rank(job, a) < rank(job, b),
    decreases b - a,
{
    lemma_rank_counts(job, a);
    if a < b {
        lemma_rank_grows(job, a, b - 1);
    }
}

/// A member that is not wanted leaves the list as it is.
proof fn lemma_list_skip(job: Job, found: Seq<Seq<char>>, next: int)
    requires
        0 <= next,
        listed(job, found, next),
        !picked(job, next),
    ensures
        listed(job, found, next + 1),
{
}

/// One more wanted member is listed behind the others.
proof fn lemma_list_push(job: Job, found: Seq<Seq<char>>, next: int, name: Seq<char>)
    requires
        0 <= next,
        listed(job, found, next),
        wanted_at(job, next, name),
    ensures
        listed(job, found.push(name), next + 1),
{
    let more = found.push(name);
    assert(picked(job, next));
    assert forall|index: int| 0 <= index < next + 1 && #[trigger] picked(job, index) implies 0
        <= rank(job, index) < more.len() && more[rank(job, index)] == base_of(job, index) by {
        if index < next {
            assert(more[rank(job, index)] == found[rank(job, index)]);
        }
    }
}

/// Going on at a member leaves an extraction in order.
proof fn lemma_scan_in_order(job: Job, next: int, found: Seq<Seq<char>>)
    requires
        listed(job, found, next),
        0 <= next <= job.entries.len(),
    ensures
        stays_in_order(job, extract_scan(job, next, found)),
    decreases job.entries.len() - next,
{
    if next < job.entries.len() {
        if job.entries[next].name is Ok {
            if !wanted(job.targets, job.entries[next].name->Ok_0) {
                lemma_list_skip(job, found, next);
                lemma_scan_in_order(job, next + 1, found);
            }
        }
    }
}

/// Every step leaves an extraction in order.
proof fn lemma_step_in_order(s: ExtractState, reply: Reply)
    requires
        in_order(s),
    ensures
        stays_in_order(s.job, extract_next(s, reply)),
{
    match s.stage {
        Stage::Opening { refused } => {},
        Stage::Announcing => {
            lemma_scan_in_order(s.job, 0, s.found);
        },
        Stage::Naming { name, content } => {},
        Stage::Writing { name } => {
            lemma_list_push(s.job, s.found, s.next, name);
            lemma_scan_in_order(s.job, s.next + 1, s.found.push(name));
        },
        Stage::Installing { name, install } => {
            lemma_list_push(s.job, s.found, s.next, name);
            lemma_scan_in_order(s.job, s.next + 1, s.found.push(name));
        },
    }
}

/// An extraction that ends well from a state in order reports the wanted
/// members of the archive, once each.
proof fn lemma_run_in_order(s: ExtractState, request: Request, files: Files, rest: Seq<Exchange>)
    requires
        in_order(s),
        run_of(extract_steps(), s, request, files, rest) is Some,
    ensures
        run_of(extract_steps(), s, request, files, rest)->Some_0.result matches Ok(found)
            ==> listed(s.job, found, s.job.entries.len() as int),
    decreases rest.len(),
{
    let reply = rest[0].reply;
    assert(extract_steps()(s, reply) == extract_next(s, reply));
    lemma_step_in_order(s, reply);
    match extract_next(s, reply) {
        Turn::Ask(then, asked) => {
            lemma_run_in_order(then, asked, rest[0].files, rest.drop_first());
        },
        Turn::Finished(result) => {},
    }
}

/// The names in lower case.
spec fn all_lowered(names: Seq<Seq<char>>) -> Seq<Seq<char>> {
    Seq::new(names.len(), |k: int| lowered(names[k]))
}

/// Names that differ but for case have lowered forms that differ.
proof fn lemma_distinct_lowered(names: Seq<Seq<char>>)
    ensures
        distinct(names) <==> all_lowered(names).no_duplicates(),
{
    let low = all_lowered(names);
    if distinct(names) {
        assert forall|a: int, b: int|
            0 <= a < low.len() && 0 <= b < low.len() && a != b implies low[a] != low[b] by {
            if a < b {
                assert(!same_ignoring_case(names[a], names[b]));
            } else {
                assert(!same_ignoring_case(names[b], names[a]));
            }
        }
    }
    if low.no_duplicates() {
        assert forall|a: int, b: int| 0 <= a < b < names.len() implies !same_ignoring_case(
            #[trigger] names[a],
            #[trigger] names[b],
        ) by {
            assert(low[a] != low[b]);
        }
    }
}

/// As many names as there are targets, with every target among them and no
/// two targets the same, are names of which no two are the same.
proof fn lemma_one_for_each(found: Seq<Seq<char>>, targets: Seq<Seq<char>>)
    requires
        distinct(targets),
        covers(found, targets),
        found.len() == targets.len(),
    ensures
        distinct(found),
{
    let low_found = all_lowered(found);
    let low_targets = all_lowered(targets);
    lemma_distinct_lowered(targets);
    lemma_distinct_lowered(found);
    low_targets.unique_seq_to_set();
    low_found.lemma_cardinality_of_set();
    vstd::seq_lib::seq_to_set_is_finite(low_found);
    vstd::seq_lib::seq_to_set_is_finite(low_targets);
    assert(low_targets.to_set().subset_of(low_found.to_set())) by {
        assert forall|x: Seq<char>| low_targets.to_set().contains(x) implies low_found.to_set().contains(
            x,
        ) by {
            let j = choose|j: int| 0 <= j < low_targets.len() && low_targets[j] == x;
            assert(among(found, targets[j]));
            let k = choose|k: int|
                0 <= k < found.len() && same_ignoring_case(targets[j], #[trigger] found[k]);
            assert(low_found[k] == x);
        }
    }
    lemma_len_subset(low_targets.to_set(), low_found.to_set());
    low_found.lemma_no_dup_set_cardinality();
}

/// Lower case goes through a name and what follows it.
proof fn lemma_lowered_suffix(name: Seq<char>, suffix: Seq<char>)
    ensures
        lowered(name + suffix) == lowered(name) + lowered(suffix),
        lowered(backup_suffix()) == backup_suffix(),
        lowered(staging_suffix()) == staging_suffix(),
{
    assert(lowered(name + suffix) =~= lowered(name) + lowered(suffix));
    assert(lowered(backup_suffix()) =~= backup_suffix());
    assert(lowered(staging_suffix()) =~= staging_suffix());
}

/// Two names that match targets which are apart are apart themselves.
proof fn lemma_matches_apart(targets: Seq<Seq<char>>, n: Seq<char>, m: Seq<char>)
    requires
        apart(targets),
        among(targets, n),
        among(targets, m),
    ensures
        n != m + backup_suffix(),
        n != m + staging_suffix(),
{
    let a = choose|a: int| 0 <= a < targets.len() && same_ignoring_case(n, #[trigger] targets[a]);
    let b = choose|b: int| 0 <= b < targets.len() && same_ignoring_case(m, #[trigger] targets[b]);
    lemma_lowered_suffix(m, backup_suffix());
    lemma_lowered_suffix(m, staging_suffix());
    assert(lowered(targets[a]) != lowered(targets[b]) + backup_suffix() && lowered(targets[a])
        != lowered(targets[b]) + staging_suffix());
}

/// Where an extraction listed every wanted member once, under names of
/// which no two are the same, and the targets are apart, the wanted members
/// do not get into each other's way.
proof fn lemma_listed_is_tidy(job: Job, found: Seq<Seq<char>>)
    requires
        listed(job, found, job.entries.len() as int),
        distinct(found),
        apart(job.targets),
    ensures
        tidy(job),
{
    assert forall|i: int, j: int, n: Seq<char>, m: Seq<char>|
        i != j && #[trigger] wanted_at(job, i, n) && #[trigger] wanted_at(job, j, m) implies n != m
        && n != m + backup_suffix() && n != m + staging_suffix() by {
        assert(picked(job, i) && picked(job, j));
        if i < j {
            lemma_rank_grows(job, i, j);
            assert(!same_ignoring_case(found[rank(job, i)], found[rank(job, j)]));
        } else {
            lemma_rank_grows(job, j, i);
            assert(!same_ignoring_case(found[rank(job, j)], found[rank(job, i)]));
        }
        assert(found[rank(job, i)] == n && found[rank(job, j)] == m);
        lemma_matches_apart(job.targets, n, m);
    }
}

/// An extraction ends well only with every target installed. Where no two
/// targets are the same but for case, and none is another followed by `.old`
/// or `.new`, an extraction that ends well reports one member for each
/// target, no two under the same name, and leaves for every target a member
/// that matches it at its place in the install directory, holding what the
/// archive holds for it.
pub proof fn law_every_target_is_installed(job: Job, files: Files, run: Seq<Exchange>)
    requires
        distinct(job.targets),
        apart(job.targets),
        outcome_of(extract_steps(), extract_begin(job), files, run) is Some,
    ensures
        ({
            let o = outcome_of(extract_steps(), extract_begin(job), files, run)->Some_0;
            o.result matches Ok(found) ==> found.len() == job.targets.len() && distinct(found)
                && all_kept(job, o.files, found, job.entries.len() as int) && all_present(
                job,
                o.files,
            )
        }),
{
    let first = extract_begin(job);
    let o = outcome_of(extract_steps(), first, files, run)->Some_0;
    lemma_run_in_order(first->Ask_0, first->Ask_1, files, run);
    law_extraction_is_complete(job, files, run);
    if o.result is Ok {
        let found = o.result->Ok_0;
        let all = job.entries.len() as int;
        lemma_one_for_each(found, job.targets);
        lemma_listed_is_tidy(job, found);
        law_extracted_members_are_installed(job, files, run);
        assert forall|j: int| 0 <= j < job.targets.len() implies present(
            job,
            o.files,
            #[trigger] job.targets[j],
        ) by {
            assert(among(found, job.targets[j]));
            let k = choose|k: int|
                0 <= k < found.len() && same_ignoring_case(job.targets[j], #[trigger] found[k]);
            assert(kept(job, o.files, found[k], all));
            assert(same_ignoring_case(found[k], job.targets[j]));
        }
    }
}

} // verus!
