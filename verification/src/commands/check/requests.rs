//! What the checks ask for: the requests of each command of the check
//! family in closed form, and the proof that its script makes exactly those.

use vstd::prelude::*;

use crate::commands::check::{
    check_script, member_script, sort_script, tool_script, tool_steps, CheckCommand,
};
use crate::commands::Target;
use crate::job::JobView;
use crate::script::{gated, MemberCheck, Operation, Prompt, Step, Tool};
use crate::session::{
    jobs, lemma_jobs_of_both, lemma_jobs_of_member_runs, lemma_jobs_of_one, member_runs, Env,
    Progress, RequestView,
};
use crate::utils::workspace::{kept, WorkspaceMemberType};

verus! {

/// The question that is put where no answer is known yet.
pub open spec fn asked(answer: Option<bool>, prompt: Prompt) -> Seq<RequestView> {
    if answer is None {
        seq![RequestView::Ask(prompt)]
    } else {
        Seq::empty()
    }
}

/// Whether a check may go ahead: the answer that is known, else the one
/// that the user gives.
pub open spec fn consent(answer: Option<bool>, env: Env) -> bool {
    match answer {
        Some(yes) => yes,
        None => env.answer,
    }
}

/// The requests of a tool once it may go ahead: install it, run it.
pub open spec fn tool_work(tool: Tool) -> Seq<RequestView> {
    seq![RequestView::Install(tool), RequestView::Run(JobView::Tool(tool))]
}

/// The runs of a per-member check on the members of one sort that the
/// filters keep.
pub open spec fn sort_runs(
    check: MemberCheck,
    sort: WorkspaceMemberType,
    excluded: Seq<Seq<char>>,
    only: Seq<Seq<char>>,
    env: Env,
) -> Seq<RequestView> {
    member_runs(check, kept(env.members(sort), excluded, only))
}

/// The requests of a check that runs one tool: the question, unless the
/// answer is known, and with the user's consent the work of the tool.
pub open spec fn tool_requests(
    tool: Tool,
    command: CheckCommand,
    target: Target,
    answer: Option<bool>,
    env: Env,
) -> Seq<RequestView> {
    asked(answer, Prompt { command, target }) + if consent(answer, env) {
        tool_work(tool)
    } else {
        Seq::empty()
    }
}

/// The requests of a per-member check.
///
/// On the crates or on the examples: the listing of the members, the
/// question unless the answer is known, and with the user's consent the run
/// on each member that the filters keep. On the whole workspace: the
/// question unless the answer is known, and with the user's consent the
/// listing and the runs for the crates, then those for the examples.
pub open spec fn member_requests(
    check: MemberCheck,
    target: Target,
    excluded: Seq<Seq<char>>,
    only: Seq<Seq<char>>,
    answer: Option<bool>,
    env: Env,
) -> Seq<RequestView> {
    let prompt = Prompt { command: check.command_spec(), target };
    let of = |sort: WorkspaceMemberType| sort_runs(check, sort, excluded, only, env);
    match target {
        Target::Crates => seq![RequestView::ListMembers(WorkspaceMemberType::Crate)] + asked(
            answer,
            prompt,
        ) + if consent(answer, env) {
            of(WorkspaceMemberType::Crate)
        } else {
            Seq::empty()
        },
        Target::Examples => seq![RequestView::ListMembers(WorkspaceMemberType::Example)] + asked(
            answer,
            prompt,
        ) + if consent(answer, env) {
            of(WorkspaceMemberType::Example)
        } else {
            Seq::empty()
        },
        Target::Workspace => asked(answer, prompt) + if consent(answer, env) {
            seq![RequestView::ListMembers(WorkspaceMemberType::Crate)] + of(
                WorkspaceMemberType::Crate,
            ) + seq![RequestView::ListMembers(WorkspaceMemberType::Example)] + of(
                WorkspaceMemberType::Example,
            )
        } else {
            Seq::empty()
        },
    }
}

/// The requests of a command of the check family, where nothing fails.
///
/// `All` puts its question in every case and then makes the requests of
/// the four checks in turn, each with the user's reply as the known answer.
pub open spec fn check_requests(
    command: CheckCommand,
    target: Target,
    excluded: Seq<Seq<char>>,
    only: Seq<Seq<char>>,
    answer: Option<bool>,
    env: Env,
) -> Seq<RequestView> {
    match command {
        CheckCommand::Audit => tool_requests(Tool::Audit, CheckCommand::Audit, target, answer, env),
        CheckCommand::Format => member_requests(
            MemberCheck::Format,
            target,
            excluded,
            only,
            answer,
            env,
        ),
        CheckCommand::Lint => member_requests(
            MemberCheck::Lint,
            target,
            excluded,
            only,
            answer,
            env,
        ),
        CheckCommand::Typos => tool_requests(Tool::Typos, CheckCommand::Typos, target, answer, env),
        CheckCommand::All => seq![RequestView::Ask(Prompt { command: CheckCommand::All, target })]
            + tool_requests(Tool::Audit, CheckCommand::Audit, target, Some(env.answer), env)
            + member_requests(
            MemberCheck::Format,
            target,
            excluded,
            only,
            Some(env.answer),
            env,
        ) + member_requests(MemberCheck::Lint, target, excluded, only, Some(env.answer), env)
            + tool_requests(Tool::Typos, CheckCommand::Typos, target, Some(env.answer), env),
    }
}

/// The listing that a per-member check leaves behind.
pub open spec fn listing_after(
    target: Target,
    before: Seq<Seq<char>>,
    answer: Option<bool>,
    env: Env,
) -> Seq<Seq<char>> {
    match target {
        Target::Crates => env.crates,
        Target::Examples => env.examples,
        Target::Workspace => if consent(answer, env) {
            env.examples
        } else {
            before
        },
    }
}

proof fn lemma_tool_steps(at: Progress, env: Env, tool: Tool, prompt: Prompt)
    requires
        at.has_part(tool_steps(tool, prompt)),
    ensures
        at.requests(env) == asked(at.answer, prompt) + (if consent(at.answer, env) {
            tool_work(tool)
        } else {
            Seq::empty()
        }) + (Progress { answer: Some(consent(at.answer, env)), ..at.past(3) }).requests(env),
{
    let part = tool_steps(tool, prompt);
    let yes = consent(at.answer, env);
    assert(at.script[at.step as int + 0] == part[0]);
    assert(at.script[at.step as int + 1] == part[1]);
    assert(at.script[at.step as int + 2] == part[2]);
    let at1 = Progress { answer: Some(yes), ..at.past(1) };
    let at2 = Progress { answer: Some(yes), ..at.past(2) };
    let at3 = Progress { answer: Some(yes), ..at.past(3) };
    if at.answer is None {
        at.lemma_carried_out(env);
        assert(at.taught(env.reply_to(RequestView::Ask(prompt))).next_step() == at1);
    } else {
        at.lemma_passed_over(env);
        assert(at.next_step() == at1);
    }
    assert(at.requests(env) == asked(at.answer, prompt) + at1.requests(env));
    if yes {
        at1.lemma_carried_out(env);
        assert(at1.taught(env.reply_to(RequestView::Install(tool))).next_step() == at2);
        at2.lemma_carried_out(env);
        assert(at2.taught(env.reply_to(RequestView::Run(JobView::Tool(tool)))).next_step() == at3);
        assert(at1.requests(env) =~= tool_work(tool) + at3.requests(env));
    } else {
        at1.lemma_passed_over(env);
        assert(at1.next_step() == at2);
        at2.lemma_passed_over(env);
        assert(at2.next_step() == at3);
        assert(at1.requests(env) =~= Seq::<RequestView>::empty() + at3.requests(env));
    }
}

proof fn lemma_tool_script(at: Progress, env: Env, tool: Tool, command: CheckCommand, target: Target)
    requires
        at.has_part(tool_script(tool, command, target)),
    ensures
        at.requests(env) == tool_requests(tool, command, target, at.answer, env) + (Progress {
            answer: Some(consent(at.answer, env)),
            ..at.past(tool_script(tool, command, target).len())
        }).requests(env),
{
    let yes = consent(at.answer, env);
    match target {
        Target::Workspace => {
            let script = tool_script(tool, command, target);
            let prompt = Prompt { command, target };
            let again = Prompt { command, target: Target::Crates };
            let steps = tool_steps(tool, again);
            assert(at.script[at.step as int + 0] == script[0]);
            let at1 = Progress { answer: Some(yes), ..at.past(1) };
            if at.answer is None {
                at.lemma_carried_out(env);
                assert(at.taught(env.reply_to(RequestView::Ask(prompt))).next_step() == at1);
            } else {
                at.lemma_passed_over(env);
                assert(at.next_step() == at1);
            }
            assert(at.requests(env) == asked(at.answer, prompt) + at1.requests(env));
            assert(at.has_part(seq![script[0]] + steps + Seq::<Step>::empty())) by {
                assert(script =~= seq![script[0]] + steps + Seq::<Step>::empty());
            }
            at.lemma_part_of(at1, seq![script[0]], steps, Seq::<Step>::empty());
            lemma_tool_steps(at1, env, tool, again);
            assert((Progress { answer: Some(consent(at1.answer, env)), ..at1.past(3) }) == (Progress {
                answer: Some(yes),
                ..at.past(4)
            }));
            assert(asked(at1.answer, again) =~= Seq::<RequestView>::empty());
            assert(at.requests(env) =~= tool_requests(tool, command, target, at.answer, env) + (
            Progress { answer: Some(yes), ..at.past(4) }).requests(env));
        },
        _ => {
            lemma_tool_steps(at, env, tool, Prompt { command, target });
        },
    }
}

proof fn lemma_sort_script(at: Progress, env: Env, check: MemberCheck, sort: WorkspaceMemberType)
    requires
        at.has_part(sort_script(check, sort)),
    ensures
        at.requests(env) == member_requests(
            check,
            sort.target_spec(),
            at.excluded,
            at.only,
            at.answer,
            env,
        ) + (Progress {
            answer: Some(consent(at.answer, env)),
            members: env.members(sort),
            ..at.past(3)
        }).requests(env),
{
    let part = sort_script(check, sort);
    let prompt = Prompt { command: check.command_spec(), target: sort.target_spec() };
    let yes = consent(at.answer, env);
    let listed = env.members(sort);
    assert(at.script[at.step as int + 0] == part[0]);
    assert(at.script[at.step as int + 1] == part[1]);
    assert(at.script[at.step as int + 2] == part[2]);
    let at1 = Progress { members: listed, ..at.past(1) };
    let at2 = Progress { answer: Some(yes), members: listed, ..at.past(2) };
    let at3 = Progress { answer: Some(yes), members: listed, ..at.past(3) };
    at.lemma_carried_out(env);
    assert(at.taught(env.reply_to(RequestView::ListMembers(sort))).next_step() == at1);
    if at.answer is None {
        at1.lemma_carried_out(env);
        assert(at1.taught(env.reply_to(RequestView::Ask(prompt))).next_step() == at2);
    } else {
        at1.lemma_passed_over(env);
        assert(at1.next_step() == at2);
    }
    assert(at1.requests(env) == asked(at.answer, prompt) + at2.requests(env));
    if yes {
        at2.lemma_run_each(env);
        assert(at2.next_step() == at3);
        assert(at2.members.skip(0) =~= listed);
    } else {
        at2.lemma_passed_over(env);
        assert(at2.next_step() == at3);
    }
    assert(at.requests(env) =~= member_requests(
        check,
        sort.target_spec(),
        at.excluded,
        at.only,
        at.answer,
        env,
    ) + at3.requests(env));
}

proof fn lemma_gated_sort_script(
    at: Progress,
    env: Env,
    check: MemberCheck,
    sort: WorkspaceMemberType,
)
    requires
        at.has_part(gated(sort_script(check, sort))),
        at.answer is Some,
    ensures
        at.requests(env) == if at.answer == Some(true) {
            seq![RequestView::ListMembers(sort)] + sort_runs(
                check,
                sort,
                at.excluded,
                at.only,
                env,
            ) + (Progress { members: env.members(sort), ..at.past(3) }).requests(env)
        } else {
            at.past(3).requests(env)
        },
{
    let part = gated(sort_script(check, sort));
    let listed = env.members(sort);
    assert(at.script[at.step as int + 0] == part[0]);
    assert(at.script[at.step as int + 1] == part[1]);
    assert(at.script[at.step as int + 2] == part[2]);
    if at.answer == Some(true) {
        let at1 = Progress { members: listed, ..at.past(1) };
        let at2 = Progress { members: listed, ..at.past(2) };
        let at3 = Progress { members: listed, ..at.past(3) };
        at.lemma_carried_out(env);
        assert(at.taught(env.reply_to(RequestView::ListMembers(sort))).next_step() == at1);
        at1.lemma_passed_over(env);
        assert(at1.next_step() == at2);
        at2.lemma_run_each(env);
        assert(at2.next_step() == at3);
        assert(at2.members.skip(0) =~= listed);
        assert(at.requests(env) =~= seq![RequestView::ListMembers(sort)] + sort_runs(
            check,
            sort,
            at.excluded,
            at.only,
            env,
        ) + at3.requests(env));
    } else {
        at.lemma_passed_over(env);
        assert(at.next_step() == at.past(1));
        at.past(1).lemma_passed_over(env);
        assert(at.past(1).next_step() == at.past(2));
        at.past(2).lemma_passed_over(env);
        assert(at.past(2).next_step() == at.past(3));
    }
}

#[verifier::spinoff_prover]
#[verifier::rlimit(20)]
proof fn lemma_member_script(at: Progress, env: Env, check: MemberCheck, target: Target)
    requires
        at.has_part(member_script(check, target)),
    ensures
        at.requests(env) == member_requests(check, target, at.excluded, at.only, at.answer, env)
            + (Progress {
            answer: Some(consent(at.answer, env)),
            members: listing_after(target, at.members, at.answer, env),
            ..at.past(member_script(check, target).len())
        }).requests(env),
{
    let yes = consent(at.answer, env);
    match target {
        Target::Crates => {
            lemma_sort_script(at, env, check, WorkspaceMemberType::Crate);
        },
        Target::Examples => {
            lemma_sort_script(at, env, check, WorkspaceMemberType::Example);
        },
        Target::Workspace => {
            let script = member_script(check, target);
            let prompt = Prompt { command: check.command_spec(), target };
            let crates = gated(sort_script(check, WorkspaceMemberType::Crate));
            let examples = gated(sort_script(check, WorkspaceMemberType::Example));
            assert(script.len() == 7);
            assert(at.script[at.step as int + 0] == script[0]);
            let at1 = Progress { answer: Some(yes), ..at.past(1) };
            if at.answer is None {
                at.lemma_carried_out(env);
                assert(at.taught(env.reply_to(RequestView::Ask(prompt))).next_step() == at1);
            } else {
                at.lemma_passed_over(env);
                assert(at.next_step() == at1);
            }
            assert(at.requests(env) == asked(at.answer, prompt) + at1.requests(env));
            assert(at.has_part(seq![script[0]] + crates + examples)) by {
                assert(script =~= seq![script[0]] + crates + examples);
            }
            at.lemma_part_of(at1, seq![script[0]], crates, examples);
            lemma_gated_sort_script(at1, env, check, WorkspaceMemberType::Crate);
            let at4 = Progress {
                answer: Some(yes),
                members: if yes {
                    env.crates
                } else {
                    at.members
                },
                ..at.past(4)
            };
            assert(at4 == if yes {
                Progress { members: env.crates, ..at1.past(3) }
            } else {
                at1.past(3)
            });
            assert(at.has_part(seq![script[0]] + crates + examples + Seq::<Step>::empty())) by {
                assert(script =~= seq![script[0]] + crates + examples + Seq::<Step>::empty());
            }
            at.lemma_part_of(at4, seq![script[0]] + crates, examples, Seq::<Step>::empty());
            lemma_gated_sort_script(at4, env, check, WorkspaceMemberType::Example);
            let at7 = Progress {
                answer: Some(yes),
                members: listing_after(target, at.members, at.answer, env),
                ..at.past(7)
            };
            assert(at7 == if yes {
                Progress { members: env.examples, ..at4.past(3) }
            } else {
                at4.past(3)
            });
            assert(at.requests(env) =~= member_requests(
                check,
                target,
                at.excluded,
                at.only,
                at.answer,
                env,
            ) + at7.requests(env));
        },
    }
}

/// The script of each command of the check family, carried out from the
/// start in a world where nothing fails, makes exactly the requests of
/// [`check_requests`], in that order.
pub proof fn lemma_check_requests(
    command: CheckCommand,
    target: Target,
    excluded: Seq<Seq<char>>,
    only: Seq<Seq<char>>,
    answer: Option<bool>,
    env: Env,
)
    ensures
        Progress::start(check_script(command, target), excluded, only, answer).requests(env)
            == check_requests(command, target, excluded, only, answer, env),
{
    let script = check_script(command, target);
    let at = Progress::start(script, excluded, only, answer);
    match command {
        CheckCommand::Audit => {
            lemma_tool_script(at, env, Tool::Audit, CheckCommand::Audit, target);
            let end = Progress { answer: Some(consent(answer, env)), ..at.past(script.len()) };
            end.lemma_passed_over(env);
        },
        CheckCommand::Typos => {
            lemma_tool_script(at, env, Tool::Typos, CheckCommand::Typos, target);
            let end = Progress { answer: Some(consent(answer, env)), ..at.past(script.len()) };
            end.lemma_passed_over(env);
        },
        CheckCommand::Format => {
            lemma_member_script(at, env, MemberCheck::Format, target);
            let end = Progress {
                answer: Some(consent(answer, env)),
                members: listing_after(target, at.members, answer, env),
                ..at.past(script.len())
            };
            end.lemma_passed_over(env);
        },
        CheckCommand::Lint => {
            lemma_member_script(at, env, MemberCheck::Lint, target);
            let end = Progress {
                answer: Some(consent(answer, env)),
                members: listing_after(target, at.members, answer, env),
                ..at.past(script.len())
            };
            end.lemma_passed_over(env);
        },
        CheckCommand::All => {
            lemma_all_requests(target, excluded, only, answer, env);
        },
    }
}

#[verifier::spinoff_prover]
#[verifier::rlimit(20)]
proof fn lemma_all_requests(
    target: Target,
    excluded: Seq<Seq<char>>,
    only: Seq<Seq<char>>,
    answer: Option<bool>,
    env: Env,
)
    ensures
        Progress::start(check_script(CheckCommand::All, target), excluded, only, answer).requests(
            env,
        ) == check_requests(CheckCommand::All, target, excluded, only, answer, env),
{
    let script = check_script(CheckCommand::All, target);
    let at = Progress::start(script, excluded, only, answer);
    let known = Some(env.answer);
    let prompt = Prompt { command: CheckCommand::All, target };
    let ask = seq![Step::always_spec(Operation::Ask(prompt))];
    let audit = tool_script(Tool::Audit, CheckCommand::Audit, target);
    let format = member_script(MemberCheck::Format, target);
    let lint = member_script(MemberCheck::Lint, target);
    let typos = tool_script(Tool::Typos, CheckCommand::Typos, target);
    let at1 = Progress { answer: known, ..at.past(1) };
    let at2 = Progress { answer: known, ..at1.past(audit.len()) };
    let at3 = Progress {
        answer: known,
        members: listing_after(target, at2.members, known, env),
        ..at2.past(format.len())
    };
    let at4 = Progress {
        answer: known,
        members: listing_after(target, at3.members, known, env),
        ..at3.past(lint.len())
    };
    let end = Progress { answer: known, ..at4.past(typos.len()) };
    let r1 = tool_requests(Tool::Audit, CheckCommand::Audit, target, known, env);
    let r2 = member_requests(MemberCheck::Format, target, excluded, only, known, env);
    let r3 = member_requests(MemberCheck::Lint, target, excluded, only, known, env);
    let r4 = tool_requests(Tool::Typos, CheckCommand::Typos, target, known, env);

    assert(script == ask + audit + format + lint + typos);
    assert(at.has_part(script));
    at.lemma_parts_in_turn((ask, audit, format, lint, typos), (at1, at2, at3, at4));

    assert(at.requests(env) == seq![RequestView::Ask(prompt)] + at1.requests(env)) by {
        assert(script[0] == ask[0]);
        at.lemma_carried_out(env);
        assert(at.taught(env.reply_to(RequestView::Ask(prompt))).next_step() == at1);
    }
    assert(at1.requests(env) == r1 + at2.requests(env)) by {
        lemma_tool_script(at1, env, Tool::Audit, CheckCommand::Audit, target);
    }
    assert(at2.requests(env) == r2 + at3.requests(env)) by {
        lemma_member_script(at2, env, MemberCheck::Format, target);
    }
    assert(at3.requests(env) == r3 + at4.requests(env)) by {
        lemma_member_script(at3, env, MemberCheck::Lint, target);
    }
    assert(at4.requests(env) == r4) by {
        lemma_tool_script(at4, env, Tool::Typos, CheckCommand::Typos, target);
        assert(end.at_end());
        end.lemma_passed_over(env);
        assert(r4 + end.requests(env) =~= r4);
    }
    assert(seq![RequestView::Ask(prompt)] + (r1 + (r2 + (r3 + r4))) =~= seq![
        RequestView::Ask(prompt),
    ] + r1 + r2 + r3 + r4);
}

/// Whether a command of the check family may go ahead. `All` asks in
/// every case, so only the user's reply counts for it.
pub open spec fn check_consent(command: CheckCommand, answer: Option<bool>, env: Env) -> bool {
    match command {
        CheckCommand::All => env.answer,
        _ => consent(answer, env),
    }
}

/// The job of a check that runs one tool, where it may go ahead.
pub open spec fn tool_jobs(tool: Tool, go: bool) -> Seq<JobView> {
    if go {
        seq![JobView::Tool(tool)]
    } else {
        Seq::empty()
    }
}

/// The jobs of a per-member check on the members of one sort: the check on
/// each member that the filters keep, in the order of the listing.
pub open spec fn sort_jobs(
    check: MemberCheck,
    sort: WorkspaceMemberType,
    excluded: Seq<Seq<char>>,
    only: Seq<Seq<char>>,
    env: Env,
) -> Seq<JobView> {
    kept(env.members(sort), excluded, only).map_values(
        |name: Seq<char>| JobView::Member(check, name),
    )
}

/// The jobs of a per-member check, where it may go ahead: on the whole
/// workspace those for the crates followed by those for the examples.
pub open spec fn member_jobs(
    check: MemberCheck,
    target: Target,
    excluded: Seq<Seq<char>>,
    only: Seq<Seq<char>>,
    go: bool,
    env: Env,
) -> Seq<JobView> {
    if !go {
        Seq::empty()
    } else {
        match target {
            Target::Crates => sort_jobs(check, WorkspaceMemberType::Crate, excluded, only, env),
            Target::Examples => sort_jobs(check, WorkspaceMemberType::Example, excluded, only, env),
            Target::Workspace => sort_jobs(check, WorkspaceMemberType::Crate, excluded, only, env)
                + sort_jobs(check, WorkspaceMemberType::Example, excluded, only, env),
        }
    }
}

/// The jobs of a command of the check family, where it may go ahead.
pub open spec fn check_jobs(
    command: CheckCommand,
    target: Target,
    excluded: Seq<Seq<char>>,
    only: Seq<Seq<char>>,
    go: bool,
    env: Env,
) -> Seq<JobView> {
    match command {
        CheckCommand::Audit => tool_jobs(Tool::Audit, go),
        CheckCommand::Format => member_jobs(MemberCheck::Format, target, excluded, only, go, env),
        CheckCommand::Lint => member_jobs(MemberCheck::Lint, target, excluded, only, go, env),
        CheckCommand::Typos => tool_jobs(Tool::Typos, go),
        CheckCommand::All => tool_jobs(Tool::Audit, go) + member_jobs(
            MemberCheck::Format,
            target,
            excluded,
            only,
            go,
            env,
        ) + member_jobs(MemberCheck::Lint, target, excluded, only, go, env) + tool_jobs(
            Tool::Typos,
            go,
        ),
    }
}

proof fn lemma_tool_jobs(
    tool: Tool,
    command: CheckCommand,
    target: Target,
    answer: Option<bool>,
    env: Env,
)
    ensures
        jobs(tool_requests(tool, command, target, answer, env)) == tool_jobs(
            tool,
            consent(answer, env),
        ),
{
    let prompt = Prompt { command, target };
    let work = if consent(answer, env) {
        tool_work(tool)
    } else {
        Seq::empty()
    };
    lemma_jobs_of_both(asked(answer, prompt), work);
    lemma_jobs_of_one(RequestView::Ask(prompt));
    lemma_jobs_of_one(RequestView::Install(tool));
    lemma_jobs_of_one(RequestView::Run(JobView::Tool(tool)));
    lemma_jobs_of_both(
        seq![RequestView::Install(tool)],
        seq![RequestView::Run(JobView::Tool(tool))],
    );
    assert(tool_work(tool) =~= seq![RequestView::Install(tool)] + seq![
        RequestView::Run(JobView::Tool(tool)),
    ]);
    assert(jobs(tool_requests(tool, command, target, answer, env)) =~= tool_jobs(
        tool,
        consent(answer, env),
    ));
}

#[verifier::spinoff_prover]
proof fn lemma_member_jobs(
    check: MemberCheck,
    target: Target,
    excluded: Seq<Seq<char>>,
    only: Seq<Seq<char>>,
    answer: Option<bool>,
    env: Env,
)
    ensures
        jobs(member_requests(check, target, excluded, only, answer, env)) == member_jobs(
            check,
            target,
            excluded,
            only,
            consent(answer, env),
            env,
        ),
{
    let prompt = Prompt { command: check.command_spec(), target };
    let go = consent(answer, env);
    let ask = asked(answer, prompt);
    let crates = sort_runs(check, WorkspaceMemberType::Crate, excluded, only, env);
    let examples = sort_runs(check, WorkspaceMemberType::Example, excluded, only, env);
    let list_crates = seq![RequestView::ListMembers(WorkspaceMemberType::Crate)];
    let list_examples = seq![RequestView::ListMembers(WorkspaceMemberType::Example)];
    lemma_jobs_of_one(RequestView::Ask(prompt));
    lemma_jobs_of_one(RequestView::ListMembers(WorkspaceMemberType::Crate));
    lemma_jobs_of_one(RequestView::ListMembers(WorkspaceMemberType::Example));
    lemma_jobs_of_member_runs(check, kept(env.crates, excluded, only));
    lemma_jobs_of_member_runs(check, kept(env.examples, excluded, only));
    assert(jobs(ask) =~= Seq::<JobView>::empty());
    assert(jobs(Seq::<RequestView>::empty()) =~= Seq::<JobView>::empty());
    match target {
        Target::Crates => {
            let work = if go {
                crates
            } else {
                Seq::empty()
            };
            lemma_jobs_of_both(list_crates, ask);
            lemma_jobs_of_both(list_crates + ask, work);
        },
        Target::Examples => {
            let work = if go {
                examples
            } else {
                Seq::empty()
            };
            lemma_jobs_of_both(list_examples, ask);
            lemma_jobs_of_both(list_examples + ask, work);
        },
        Target::Workspace => {
            let work = if go {
                list_crates + crates + list_examples + examples
            } else {
                Seq::empty()
            };
            lemma_jobs_of_both(ask, work);
            lemma_jobs_of_both(list_crates, crates);
            lemma_jobs_of_both(list_crates + crates, list_examples);
            lemma_jobs_of_both(list_crates + crates + list_examples, examples);
        },
    }
    assert(jobs(member_requests(check, target, excluded, only, answer, env)) =~= member_jobs(
        check,
        target,
        excluded,
        only,
        go,
        env,
    ));
}

/// The jobs that a command of the check family asks to run are those of
/// [`check_jobs`]: none without the user's consent, else one for a tool and
/// one for each member that the filters keep.
pub proof fn lemma_check_jobs(
    command: CheckCommand,
    target: Target,
    excluded: Seq<Seq<char>>,
    only: Seq<Seq<char>>,
    answer: Option<bool>,
    env: Env,
)
    ensures
        jobs(check_requests(command, target, excluded, only, answer, env)) == check_jobs(
            command,
            target,
            excluded,
            only,
            check_consent(command, answer, env),
            env,
        ),
{
    match command {
        CheckCommand::Audit => {
            lemma_tool_jobs(Tool::Audit, CheckCommand::Audit, target, answer, env);
        },
        CheckCommand::Typos => {
            lemma_tool_jobs(Tool::Typos, CheckCommand::Typos, target, answer, env);
        },
        CheckCommand::Format => {
            lemma_member_jobs(MemberCheck::Format, target, excluded, only, answer, env);
        },
        CheckCommand::Lint => {
            lemma_member_jobs(MemberCheck::Lint, target, excluded, only, answer, env);
        },
        CheckCommand::All => {
            let known = Some(env.answer);
            let ask = seq![RequestView::Ask(Prompt { command: CheckCommand::All, target })];
            let audit = tool_requests(Tool::Audit, CheckCommand::Audit, target, known, env);
            let format = member_requests(MemberCheck::Format, target, excluded, only, known, env);
            let lint = member_requests(MemberCheck::Lint, target, excluded, only, known, env);
            let typos = tool_requests(Tool::Typos, CheckCommand::Typos, target, known, env);
            lemma_jobs_of_one(RequestView::Ask(Prompt { command: CheckCommand::All, target }));
            lemma_tool_jobs(Tool::Audit, CheckCommand::Audit, target, known, env);
            lemma_member_jobs(MemberCheck::Format, target, excluded, only, known, env);
            lemma_member_jobs(MemberCheck::Lint, target, excluded, only, known, env);
            lemma_tool_jobs(Tool::Typos, CheckCommand::Typos, target, known, env);
            lemma_jobs_of_both(ask, audit);
            lemma_jobs_of_both(ask + audit, format);
            lemma_jobs_of_both(ask + audit + format, lint);
            lemma_jobs_of_both(ask + audit + format + lint, typos);
            assert(jobs(check_requests(command, target, excluded, only, answer, env)) =~= check_jobs(
                command,
                target,
                excluded,
                only,
                env.answer,
                env,
            ));
        },
    }
}

/// A command on the whole workspace runs what it runs on the crates
/// together with what it runs on the examples.
///
/// A per-member check runs, on the whole workspace, its jobs for the crates
/// followed by its jobs for the examples. A check that runs one tool runs
/// the same single job on any target. So for every command the set of jobs
/// on the whole workspace is the union of the sets of jobs on the crates and
/// on the examples.
pub proof fn lemma_workspace_is_crates_and_examples(
    command: CheckCommand,
    excluded: Seq<Seq<char>>,
    only: Seq<Seq<char>>,
    answer: Option<bool>,
    env: Env,
)
    ensures
        ({
            let whole = jobs(
                check_requests(command, Target::Workspace, excluded, only, answer, env),
            );
            let crates = jobs(check_requests(command, Target::Crates, excluded, only, answer, env));
            let examples = jobs(
                check_requests(command, Target::Examples, excluded, only, answer, env),
            );
            &&& (command is Format || command is Lint) ==> whole == crates + examples
            &&& (command is Audit || command is Typos) ==> whole == crates && whole == examples
            &&& whole.to_set() == crates.to_set().union(examples.to_set())
        }),
{
    let whole = jobs(check_requests(command, Target::Workspace, excluded, only, answer, env));
    let crates = jobs(check_requests(command, Target::Crates, excluded, only, answer, env));
    let examples = jobs(check_requests(command, Target::Examples, excluded, only, answer, env));
    let go = check_consent(command, answer, env);
    lemma_check_jobs(command, Target::Workspace, excluded, only, answer, env);
    lemma_check_jobs(command, Target::Crates, excluded, only, answer, env);
    lemma_check_jobs(command, Target::Examples, excluded, only, answer, env);
    if command is Format || command is Lint {
        assert(whole =~= crates + examples);
    }
    assert forall|job: JobView| #[trigger]
        whole.contains(job) <==> crates.contains(job) || examples.contains(job) by {
        lemma_contains_job(command, excluded, only, go, env, job);
    }
    assert(whole.to_set() =~= crates.to_set().union(examples.to_set()));
}

proof fn lemma_in_both<A>(first: Seq<A>, second: Seq<A>, item: A)
    ensures
        (first + second).contains(item) <==> first.contains(item) || second.contains(item),
{
    if first.contains(item) {
        let i = choose|i: int| 0 <= i < first.len() && first[i] == item;
        assert((first + second)[i] == item);
    }
    if second.contains(item) {
        let i = choose|i: int| 0 <= i < second.len() && second[i] == item;
        assert((first + second)[first.len() + i] == item);
    }
    if (first + second).contains(item) {
        let i = choose|i: int| 0 <= i < (first + second).len() && (first + second)[i] == item;
        if i < first.len() {
            assert(first[i] == item);
        } else {
            assert(second[i - first.len()] == item);
        }
    }
}

proof fn lemma_member_contains(
    check: MemberCheck,
    excluded: Seq<Seq<char>>,
    only: Seq<Seq<char>>,
    go: bool,
    env: Env,
    job: JobView,
)
    ensures
        member_jobs(check, Target::Workspace, excluded, only, go, env).contains(job)
            <==> member_jobs(check, Target::Crates, excluded, only, go, env).contains(job)
            || member_jobs(check, Target::Examples, excluded, only, go, env).contains(job),
{
    lemma_in_both(
        sort_jobs(check, WorkspaceMemberType::Crate, excluded, only, env),
        sort_jobs(check, WorkspaceMemberType::Example, excluded, only, env),
        job,
    );
}

proof fn lemma_all_contains(
    target: Target,
    excluded: Seq<Seq<char>>,
    only: Seq<Seq<char>>,
    go: bool,
    env: Env,
    job: JobView,
)
    ensures
        check_jobs(CheckCommand::All, target, excluded, only, go, env).contains(job) <==> tool_jobs(
            Tool::Audit,
            go,
        ).contains(job) || member_jobs(
            MemberCheck::Format,
            target,
            excluded,
            only,
            go,
            env,
        ).contains(job) || member_jobs(MemberCheck::Lint, target, excluded, only, go, env).contains(
            job,
        ) || tool_jobs(Tool::Typos, go).contains(job),
{
    let audit = tool_jobs(Tool::Audit, go);
    let typos = tool_jobs(Tool::Typos, go);
    let format = member_jobs(MemberCheck::Format, target, excluded, only, go, env);
    let lint = member_jobs(MemberCheck::Lint, target, excluded, only, go, env);
    lemma_in_both(audit, format, job);
    lemma_in_both(audit + format, lint, job);
    lemma_in_both(audit + format + lint, typos, job);
}

proof fn lemma_contains_job(
    command: CheckCommand,
    excluded: Seq<Seq<char>>,
    only: Seq<Seq<char>>,
    go: bool,
    env: Env,
    job: JobView,
)
    ensures
        check_jobs(command, Target::Workspace, excluded, only, go, env).contains(job)
            <==> check_jobs(command, Target::Crates, excluded, only, go, env).contains(job)
            || check_jobs(command, Target::Examples, excluded, only, go, env).contains(job),
{
    lemma_member_contains(MemberCheck::Format, excluded, only, go, env, job);
    lemma_member_contains(MemberCheck::Lint, excluded, only, go, env, job);
    lemma_all_contains(Target::Workspace, excluded, only, go, env, job);
    lemma_all_contains(Target::Crates, excluded, only, go, env, job);
    lemma_all_contains(Target::Examples, excluded, only, go, env, job);
}

} // verus!
