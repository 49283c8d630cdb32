//! Sessions: a script carried out one request at a time.
//!
//! A session holds a script and what has been learnt so far. Each call of
//! [`Session::advance`] takes the reply to the request made last and gives
//! the next request, until the script is through or something fails.

use vstd::prelude::*;

use crate::job::{Job, JobView};
use crate::script::{MemberCheck, Operation, Prompt, Step, Tool};
use crate::utils::workspace::{keeps, keeps_spec, kept, WorkspaceMemberType};

verus! {

/// Why a command failed.
#[derive(Debug, PartialEq, Eq)]
pub enum Failure {
    /// The tool could not be installed; the text is the installer's.
    NotInstalled(Tool, String),
    /// The program of the job could not be started; the text is the cause.
    NotStarted(Job, String),
    /// The program of the job ran and ended with a status other than success.
    Unsuccessful(Job),
}

/// A [`Failure`] with its texts as sequences of characters.
pub enum FailureView {
    NotInstalled(Tool, Seq<char>),
    NotStarted(JobView, Seq<char>),
    Unsuccessful(JobView),
}

impl View for Failure {
    type V = FailureView;

    open spec fn view(&self) -> FailureView {
        match self {
            Failure::NotInstalled(tool, text) => FailureView::NotInstalled(*tool, text@),
            Failure::NotStarted(job, cause) => FailureView::NotStarted(job@, cause@),
            Failure::Unsuccessful(job) => FailureView::Unsuccessful(job@),
        }
    }
}

impl Clone for Failure {
    fn clone(&self) -> (copy: Failure)
        ensures
            copy@ == self@,
    {
        match self {
            Failure::NotInstalled(tool, text) => Failure::NotInstalled(*tool, text.clone()),
            Failure::NotStarted(job, cause) => Failure::NotStarted(job.clone(), cause.clone()),
            Failure::Unsuccessful(job) => Failure::Unsuccessful(job.clone()),
        }
    }
}

impl FailureView {
    /// The text that tells of the failure.
    pub open spec fn message(self) -> Seq<char> {
        match self {
            FailureView::NotInstalled(_, text) => text,
            FailureView::NotStarted(job, cause) => "Failed to execute "@ + job.title() + ": "@
                + cause,
            FailureView::Unsuccessful(job) => job.complaint(),
        }
    }
}

impl Failure {
    /// The text that tells of the failure.
    pub fn message(&self) -> (message: String)
        ensures
            message@ == self@.message(),
    {
        match self {
            Failure::NotInstalled(_, text) => text.clone(),
            Failure::NotStarted(job, cause) => {
                let mut message = "Failed to execute ".to_owned();
                message.append(job.title());
                message.append(": ");
                message.append(cause.as_str());
                message
            },
            Failure::Unsuccessful(job) => job.complaint(),
        }
    }
}

/// How a command ended, with the failure by its view.
pub open spec fn outcome_view(outcome: Result<(), Failure>) -> Result<(), FailureView> {
    match outcome {
        Ok(_) => Ok(()),
        Err(failure) => Err(failure@),
    }
}

/// What a session asks its caller to do next.
#[derive(Debug, PartialEq, Eq)]
pub enum Request {
    /// Put the question to the user. The reply is [`Reply::Answer`].
    Ask(Prompt),
    /// List the members of the workspace of one sort. The reply is
    /// [`Reply::Members`].
    ListMembers(WorkspaceMemberType),
    /// Find out whether the current toolchain is a nightly one. The reply is
    /// [`Reply::Nightly`].
    CheckToolchain,
    /// Make sure that the tool is installed. The reply is
    /// [`Reply::Installed`] or [`Reply::NotInstalled`].
    Install(Tool),
    /// Run the program of the job. The reply is [`Reply::Exited`] or
    /// [`Reply::NotStarted`].
    Run(Job),
    /// Nothing more: the command has ended in this way.
    Finish(Result<(), Failure>),
}

/// A [`Request`] with its texts as sequences of characters.
pub enum RequestView {
    Ask(Prompt),
    ListMembers(WorkspaceMemberType),
    CheckToolchain,
    Install(Tool),
    Run(JobView),
    Finish(Result<(), FailureView>),
}

impl View for Request {
    type V = RequestView;

    open spec fn view(&self) -> RequestView {
        match self {
            Request::Ask(prompt) => RequestView::Ask(*prompt),
            Request::ListMembers(sort) => RequestView::ListMembers(*sort),
            Request::CheckToolchain => RequestView::CheckToolchain,
            Request::Install(tool) => RequestView::Install(*tool),
            Request::Run(job) => RequestView::Run(job@),
            Request::Finish(outcome) => RequestView::Finish(outcome_view(*outcome)),
        }
    }
}

/// What came of a request.
#[derive(Debug, PartialEq, Eq)]
pub enum Reply {
    /// Nothing yet: the word to begin, where no request has been made.
    Ready,
    /// The user's answer to a question: yes or no.
    Answer(bool),
    /// The names of the members that were listed, in the order of the listing.
    Members(Vec<String>),
    /// Whether the current toolchain is a nightly one.
    Nightly(bool),
    /// The tool is installed.
    Installed,
    /// The tool could not be installed; the text says why.
    NotInstalled(String),
    /// The program ran; the flag says whether its exit status was success.
    Exited(bool),
    /// The program could not be started; the text says why.
    NotStarted(String),
}

/// A [`Reply`] with its texts as sequences of characters.
pub enum ReplyView {
    Ready,
    Answer(bool),
    Members(Seq<Seq<char>>),
    Nightly(bool),
    Installed,
    NotInstalled(Seq<char>),
    Exited(bool),
    NotStarted(Seq<char>),
}

impl View for Reply {
    type V = ReplyView;

    open spec fn view(&self) -> ReplyView {
        match self {
            Reply::Ready => ReplyView::Ready,
            Reply::Answer(yes) => ReplyView::Answer(*yes),
            Reply::Members(names) => ReplyView::Members(names.deep_view()),
            Reply::Nightly(yes) => ReplyView::Nightly(*yes),
            Reply::Installed => ReplyView::Installed,
            Reply::NotInstalled(text) => ReplyView::NotInstalled(text@),
            Reply::Exited(success) => ReplyView::Exited(*success),
            Reply::NotStarted(cause) => ReplyView::NotStarted(cause@),
        }
    }
}

/// Whether `reply` is of the kind that answers `pending`.
pub open spec fn fits(pending: RequestView, reply: ReplyView) -> bool {
    match pending {
        RequestView::Ask(_) => reply is Answer,
        RequestView::ListMembers(_) => reply is Members,
        RequestView::CheckToolchain => reply is Nightly,
        RequestView::Install(_) => reply is Installed || reply is NotInstalled,
        RequestView::Run(_) => reply is Exited || reply is NotStarted,
        RequestView::Finish(_) => false,
    }
}

/// The failure that `reply` reports of `pending`, if it reports one.
pub open spec fn failure(pending: RequestView, reply: ReplyView) -> Option<FailureView> {
    match (pending, reply) {
        (RequestView::Install(tool), ReplyView::NotInstalled(text)) => Some(
            FailureView::NotInstalled(tool, text),
        ),
        (RequestView::Run(job), ReplyView::NotStarted(cause)) => Some(
            FailureView::NotStarted(job, cause),
        ),
        (RequestView::Run(job), ReplyView::Exited(false)) => Some(FailureView::Unsuccessful(job)),
        _ => None,
    }
}

/// A world in which nothing fails: what the user answers, whether the
/// toolchain is a nightly one, and the members of the workspace.
pub struct Env {
    pub answer: bool,
    pub nightly: bool,
    pub crates: Seq<Seq<char>>,
    pub examples: Seq<Seq<char>>,
}

impl Env {
    /// The members of one sort.
    pub open spec fn members(self, sort: WorkspaceMemberType) -> Seq<Seq<char>> {
        match sort {
            WorkspaceMemberType::Crate => self.crates,
            WorkspaceMemberType::Example => self.examples,
        }
    }

    /// The reply that this world gives to a request.
    pub open spec fn reply_to(self, request: RequestView) -> ReplyView {
        match request {
            RequestView::Ask(_) => ReplyView::Answer(self.answer),
            RequestView::ListMembers(sort) => ReplyView::Members(self.members(sort)),
            RequestView::CheckToolchain => ReplyView::Nightly(self.nightly),
            RequestView::Install(_) => ReplyView::Installed,
            _ => ReplyView::Exited(true),
        }
    }
}

/// The requests that run a per-member check on the members of the given
/// names, in order.
pub open spec fn member_runs(check: MemberCheck, names: Seq<Seq<char>>) -> Seq<RequestView> {
    names.map_values(|name: Seq<char>| RequestView::Run(JobView::Member(check, name)))
}

/// The jobs that the requests ask to run, in order.
pub open spec fn jobs(requests: Seq<RequestView>) -> Seq<JobView>
    decreases requests.len(),
{
    if requests.len() == 0 {
        Seq::empty()
    } else {
        jobs(requests.drop_last()) + match requests.last() {
            RequestView::Run(job) => seq![job],
            _ => Seq::empty(),
        }
    }
}

/// The jobs of two runs of requests, one after the other, are the jobs of
/// the first followed by the jobs of the second.
pub proof fn lemma_jobs_of_both(first: Seq<RequestView>, second: Seq<RequestView>)
    ensures
        jobs(first + second) == jobs(first) + jobs(second),
    decreases second.len(),
{
    if second.len() == 0 {
        assert(first + second =~= first);
        assert(jobs(first) + jobs(second) =~= jobs(first));
    } else {
        assert((first + second).drop_last() =~= first + second.drop_last());
        assert((first + second).last() == second.last());
        lemma_jobs_of_both(first, second.drop_last());
        let tail = match second.last() {
            RequestView::Run(job) => seq![job],
            _ => Seq::empty(),
        };
        assert(jobs(first + second) == jobs(first + second.drop_last()) + tail);
        assert(jobs(second) == jobs(second.drop_last()) + tail);
        assert(jobs(first + second) =~= jobs(first) + jobs(second));
    }
}

/// A single request asks for one job if it asks to run something, else for
/// none.
pub proof fn lemma_jobs_of_one(request: RequestView)
    ensures
        jobs(seq![request]) == match request {
            RequestView::Run(job) => seq![job],
            _ => Seq::<JobView>::empty(),
        },
{
    assert(seq![request].drop_last() =~= Seq::<RequestView>::empty());
    assert(jobs(seq![request].drop_last()) =~= Seq::<JobView>::empty());
    assert(jobs(seq![request]) =~= match request {
        RequestView::Run(job) => seq![job],
        _ => Seq::<JobView>::empty(),
    });
}

/// The jobs of a per-member check on some members are the check on each of
/// them.
pub proof fn lemma_jobs_of_member_runs(check: MemberCheck, names: Seq<Seq<char>>)
    ensures
        jobs(member_runs(check, names)) == names.map_values(
            |name: Seq<char>| JobView::Member(check, name),
        ),
    decreases names.len(),
{
    let expected = names.map_values(|name: Seq<char>| JobView::Member(check, name));
    if names.len() == 0 {
        assert(jobs(member_runs(check, names)) =~= expected);
    } else {
        lemma_jobs_of_member_runs(check, names.drop_last());
        assert(member_runs(check, names).drop_last() =~= member_runs(check, names.drop_last()));
        assert(jobs(member_runs(check, names)) =~= expected);
    }
}

/// How far a script has been carried out, and what has been learnt on the
/// way.
pub struct Progress {
    /// The script.
    pub script: Seq<Step>,
    /// The names of the members that per-member checks leave out.
    pub excluded: Seq<Seq<char>>,
    /// Where not empty, the names of the only members that per-member checks
    /// take in.
    pub only: Seq<Seq<char>>,
    /// The index of the current step.
    pub step: nat,
    /// Within a per-member step, the index of the current member.
    pub member: nat,
    /// The members that were listed last.
    pub members: Seq<Seq<char>>,
    /// The user's answer, once there is one.
    pub answer: Option<bool>,
    /// Whether the toolchain is a nightly one, once that is known.
    pub nightly: Option<bool>,
}

impl Progress {
    /// The state in which nothing of `script` has been carried out.
    pub open spec fn start(
        script: Seq<Step>,
        excluded: Seq<Seq<char>>,
        only: Seq<Seq<char>>,
        answer: Option<bool>,
    ) -> Progress {
        Progress {
            script,
            excluded,
            only,
            step: 0,
            member: 0,
            members: Seq::empty(),
            answer,
            nightly: None,
        }
    }

    /// Whether the script is through.
    pub open spec fn at_end(self) -> bool {
        self.step >= self.script.len()
    }

    /// Whether there is a current step and its condition holds.
    pub open spec fn active(self) -> bool {
        !self.at_end() && self.script[self.step as int].when.holds_spec(self.answer, self.nightly)
    }

    /// Whether the current step is an active per-member step that has not
    /// gone through the whole listing yet.
    pub open spec fn amid_members(self) -> bool {
        self.active() && self.script[self.step as int].op is RunEach && self.member
            < self.members.len()
    }

    /// The request that is made at this point, if one is: none where the
    /// script is through, where the condition of the current step does not
    /// hold, or where a per-member step is at a member that the filters
    /// leave out or at the end of the listing.
    pub open spec fn current(self) -> Option<RequestView> {
        if !self.active() {
            None
        } else {
            match self.script[self.step as int].op {
                Operation::Ask(prompt) => Some(RequestView::Ask(prompt)),
                Operation::ListMembers(sort) => Some(RequestView::ListMembers(sort)),
                Operation::CheckToolchain => Some(RequestView::CheckToolchain),
                Operation::Install(tool) => Some(RequestView::Install(tool)),
                Operation::Run(tool) => Some(RequestView::Run(JobView::Tool(tool))),
                Operation::RunEach(check) => {
                    if self.member < self.members.len() && keeps_spec(
                        self.excluded,
                        self.only,
                        self.members[self.member as int],
                    ) {
                        Some(
                            RequestView::Run(
                                JobView::Member(check, self.members[self.member as int]),
                            ),
                        )
                    } else {
                        None
                    }
                },
            }
        }
    }

    /// The next point: the next member within a per-member step, else the
    /// next step.
    pub open spec fn forward(self) -> Progress {
        if self.amid_members() {
            Progress { member: self.member + 1, ..self }
        } else {
            Progress { step: self.step + 1, member: 0, ..self }
        }
    }

    /// The same point with what `reply` tells taken in: an answer, a
    /// listing, or the sort of the toolchain.
    pub open spec fn taught(self, reply: ReplyView) -> Progress {
        match reply {
            ReplyView::Answer(yes) => Progress { answer: Some(yes), ..self },
            ReplyView::Members(names) => Progress { members: names, ..self },
            ReplyView::Nightly(yes) => Progress { nightly: Some(yes), ..self },
            _ => self,
        }
    }

    /// The point reached once the request made here has got `reply`.
    pub open spec fn after(self, reply: ReplyView) -> Progress {
        self.taught(reply).forward()
    }

    /// The requests that are made from this point on, in order, where the
    /// world is `env` and so nothing fails.
    pub open spec fn requests(self, env: Env) -> Seq<RequestView>
        decreases self.script.len() - self.step, self.members.len() - self.member,
    {
        if self.at_end() {
            Seq::empty()
        } else {
            match self.current() {
                None => self.forward().requests(env),
                Some(request) => seq![request] + self.after(env.reply_to(request)).requests(env),
            }
        }
    }
}

impl Progress {
    /// The point at the start of the step after the current one.
    pub open spec fn next_step(self) -> Progress {
        Progress { step: self.step + 1, member: 0, ..self }
    }

    /// Whether the steps of `part` are the next steps of the script.
    pub open spec fn has_part(self, part: Seq<Step>) -> bool {
        &&& self.member == 0
        &&& self.step + part.len() <= self.script.len()
        &&& forall|i: int| 0 <= i < part.len() ==> self.script[self.step + i] == #[trigger] part[i]
    }

    /// Where some steps are the next steps of the script, so is each run of
    /// steps among them, at the point where the steps before it are past.
    pub proof fn lemma_part_of(
        self,
        there: Progress,
        before: Seq<Step>,
        part: Seq<Step>,
        after: Seq<Step>,
    )
        requires
            self.has_part(before + part + after),
            there.script == self.script,
            there.step == self.step + before.len(),
            there.member == 0,
        ensures
            there.has_part(part),
    {
        let whole = before + part + after;
        assert forall|i: int| 0 <= i < part.len() implies there.script[there.step + i]
            == #[trigger] part[i] by {
            assert(whole[before.len() + i] == part[i]);
            assert(self.script[self.step + (before.len() + i)] == whole[before.len() + i]);
        }
    }

    /// Where a script is made of five parts, each of the last four is what
    /// comes next at the point where the parts before it are past.
    pub proof fn lemma_parts_in_turn(
        self,
        parts: (Seq<Step>, Seq<Step>, Seq<Step>, Seq<Step>, Seq<Step>),
        points: (Progress, Progress, Progress, Progress),
    )
        requires
            self.has_part(parts.0 + parts.1 + parts.2 + parts.3 + parts.4),
            points.0.script == self.script && points.0.member == 0,
            points.1.script == self.script && points.1.member == 0,
            points.2.script == self.script && points.2.member == 0,
            points.3.script == self.script && points.3.member == 0,
            points.0.step == self.step + parts.0.len(),
            points.1.step == points.0.step + parts.1.len(),
            points.2.step == points.1.step + parts.2.len(),
            points.3.step == points.2.step + parts.3.len(),
        ensures
            points.0.has_part(parts.1),
            points.1.has_part(parts.2),
            points.2.has_part(parts.3),
            points.3.has_part(parts.4),
            points.3.step + parts.4.len() == self.step + (parts.0 + parts.1 + parts.2 + parts.3
                + parts.4).len(),
    {
        let none = Seq::<Step>::empty();
        let whole = parts.0 + parts.1 + parts.2 + parts.3 + parts.4;
        assert(whole =~= parts.0 + parts.1 + (parts.2 + parts.3 + parts.4));
        self.lemma_part_of(points.0, parts.0, parts.1, parts.2 + parts.3 + parts.4);
        assert(whole =~= parts.0 + parts.1 + parts.2 + (parts.3 + parts.4));
        self.lemma_part_of(points.1, parts.0 + parts.1, parts.2, parts.3 + parts.4);
        self.lemma_part_of(points.2, parts.0 + parts.1 + parts.2, parts.3, parts.4);
        assert(whole =~= whole + none);
        self.lemma_part_of(points.3, parts.0 + parts.1 + parts.2 + parts.3, parts.4, none);
    }

    /// The point that lies `steps` steps further on, at the start of a step.
    pub open spec fn past(self, steps: nat) -> Progress {
        Progress { step: self.step + steps, member: 0, ..self }
    }

    /// A step whose condition does not hold, and a step after the last,
    /// ask for nothing.
    pub proof fn lemma_passed_over(self, env: Env)
        requires
            !self.active(),
        ensures
            self.requests(env) == if self.at_end() {
                Seq::<RequestView>::empty()
            } else {
                self.next_step().requests(env)
            },
    {
    }

    /// A step that is carried out, and is not a per-member step, makes its
    /// one request; the reply is taken in and the script goes on with the
    /// next step.
    pub proof fn lemma_carried_out(self, env: Env)
        requires
            self.active(),
            !(self.script[self.step as int].op is RunEach),
        ensures
            self.current() matches Some(request) && self.requests(env) == seq![request]
                + self.taught(env.reply_to(request)).next_step().requests(env),
    {
        let request = self.current()->Some_0;
        let told = self.taught(env.reply_to(request));
        assert(!told.amid_members());
        assert(self.after(env.reply_to(request)) == told.next_step());
    }

    /// A per-member step that is carried out runs the check on each member
    /// from the current one on that the filters keep, in the order of the
    /// listing, and the script goes on with the next step.
    pub proof fn lemma_run_each(self, env: Env)
        requires
            self.active(),
            self.script[self.step as int].op is RunEach,
            self.member <= self.members.len(),
        ensures
            self.requests(env) == member_runs(
                self.script[self.step as int].op->RunEach_0,
                kept(self.members.skip(self.member as int), self.excluded, self.only),
            ) + self.next_step().requests(env),
        decreases self.members.len() - self.member,
    {
        let check = self.script[self.step as int].op->RunEach_0;
        let keep = |name: Seq<char>| keeps_spec(self.excluded, self.only, name);
        let left = self.members.skip(self.member as int);
        if self.member == self.members.len() {
            left.lemma_filter_len(keep);
            assert(member_runs(check, left.filter(keep)) =~= Seq::<RequestView>::empty());
            assert(self.forward() == self.next_step());
            assert(self.requests(env) =~= member_runs(check, left.filter(keep))
                + self.next_step().requests(env));
        } else {
            let name = self.members[self.member as int];
            let next = Progress { member: self.member + 1, ..self };
            let rest = self.members.skip(self.member as int + 1);
            assert(left =~= seq![name] + rest);
            rest.lemma_filter_prepend(name, keep);
            next.lemma_run_each(env);
            assert(next.next_step() == self.next_step());
            assert(self.forward() == next);
            if keep(name) {
                let request = RequestView::Run(JobView::Member(check, name));
                assert(self.current() == Some(request));
                assert(self.after(env.reply_to(request)) == next);
                assert(member_runs(check, seq![name] + rest.filter(keep)) =~= seq![request]
                    + member_runs(check, rest.filter(keep)));
                assert(self.requests(env) =~= member_runs(check, left.filter(keep))
                    + self.next_step().requests(env));
            } else {
                assert(self.current() is None);
                assert(Seq::<Seq<char>>::empty() + rest.filter(keep) =~= rest.filter(keep));
            }
        }
    }
}

/// What a [`Session`] stands for: how far it is, whether it waits for the
/// reply to a request, and how the command ended, once it has.
pub struct SessionView {
    pub progress: Progress,
    pub waiting: bool,
    pub outcome: Option<Result<(), FailureView>>,
}

impl SessionView {
    /// The session in which nothing of `script` has been carried out.
    pub open spec fn start(
        script: Seq<Step>,
        excluded: Seq<Seq<char>>,
        only: Seq<Seq<char>>,
        answer: Option<bool>,
    ) -> SessionView {
        SessionView {
            progress: Progress::start(script, excluded, only, answer),
            waiting: false,
            outcome: None,
        }
    }

    /// The session once the command has ended in the given way, wherever
    /// in its script it was.
    pub open spec fn ended(self, outcome: Result<(), FailureView>) -> SessionView {
        SessionView { waiting: false, outcome: Some(outcome), ..self }
    }

    /// The request that the session waits for the reply to, if it waits.
    pub open spec fn pending(self) -> Option<RequestView> {
        if self.outcome is None && self.waiting {
            self.progress.current()
        } else {
            None
        }
    }

    /// The requests that the session has yet to make, in order, where the
    /// world is `env` and so nothing fails. The pending request is not among
    /// them: it has been made.
    pub open spec fn remaining(self, env: Env) -> Seq<RequestView> {
        if self.outcome is Some {
            Seq::empty()
        } else {
            match self.pending() {
                None => self.progress.requests(env),
                Some(request) => self.progress.after(env.reply_to(request)).requests(env),
            }
        }
    }
}

impl SessionView {
    /// A command that has ended asks for nothing more: no request is
    /// pending and none remains, whatever the script still holds.
    pub proof fn lemma_ended(self, env: Env)
        requires
            self.outcome is Some,
        ensures
            self.pending() is None,
            self.remaining(env) == Seq::<RequestView>::empty(),
    {
    }
}

/// A command in the course of being carried out.
pub struct Session {
    script: Vec<Step>,
    excluded: Vec<String>,
    only: Vec<String>,
    step: usize,
    member: usize,
    members: Vec<String>,
    answer: Option<bool>,
    nightly: Option<bool>,
    waiting: bool,
    outcome: Option<Result<(), Failure>>,
}

impl View for Session {
    type V = SessionView;

    closed spec fn view(&self) -> SessionView {
        SessionView {
            progress: Progress {
                script: self.script@,
                excluded: self.excluded.deep_view(),
                only: self.only.deep_view(),
                step: self.step as nat,
                member: self.member as nat,
                members: self.members.deep_view(),
                answer: self.answer,
                nightly: self.nightly,
            },
            waiting: self.waiting,
            outcome: match self.outcome {
                Some(outcome) => Some(outcome_view(outcome)),
                None => None,
            },
        }
    }
}

impl Session {
    /// A session that is about to carry out `script`, with the filters on
    /// the members' names and the answer that is already known, if any.
    pub fn new(
        script: Vec<Step>,
        excluded: Vec<String>,
        only: Vec<String>,
        answer: Option<bool>,
    ) -> (session: Session)
        ensures
            session@ == SessionView::start(
                script@,
                excluded.deep_view(),
                only.deep_view(),
                answer,
            ),
    {
        let session = Session {
            script,
            excluded,
            only,
            step: 0,
            member: 0,
            members: Vec::new(),
            answer,
            nightly: None,
            waiting: false,
            outcome: None,
        };
        assert(session.members.deep_view() =~= Seq::empty());
        session
    }

    /// The request that is made at the point where the session is.
    fn current(&self) -> (request: Option<Request>)
        ensures
            match request {
                Some(request) => self@.progress.current() == Some(request@),
                None => self@.progress.current() is None,
            },
    {
        if self.step >= self.script.len() {
            return None;
        }
        let step = self.script[self.step];
        if !step.when.holds(self.answer, self.nightly) {
            return None;
        }
        match step.op {
            Operation::Ask(prompt) => Some(Request::Ask(prompt)),
            Operation::ListMembers(sort) => Some(Request::ListMembers(sort)),
            Operation::CheckToolchain => Some(Request::CheckToolchain),
            Operation::Install(tool) => Some(Request::Install(tool)),
            Operation::Run(tool) => Some(Request::Run(Job::Tool(tool))),
            Operation::RunEach(check) => {
                if self.member < self.members.len() && keeps(
                    &self.excluded,
                    &self.only,
                    &self.members[self.member],
                ) {
                    Some(Request::Run(Job::Member(check, self.members[self.member].clone())))
                } else {
                    None
                }
            },
        }
    }

    /// Moves to the next point of the script.
    fn forward(&mut self)
        requires
            !old(self)@.progress.at_end(),
        ensures
            final(self)@ == (SessionView { progress: old(self)@.progress.forward(), ..old(self)@ }),
    {
        let step = self.script[self.step];
        let each = match step.op {
            Operation::RunEach(_) => true,
            _ => false,
        };
        if each && step.when.holds(self.answer, self.nightly) && self.member < self.members.len() {
            self.member = self.member + 1;
        } else {
            assert(self.step < self.script.len());
            self.step = self.step + 1;
            self.member = 0;
        }
    }

    /// Goes on from the point where the session is to the next request.
    fn seek(&mut self) -> (request: Request)
        requires
            old(self)@.outcome is None,
        ensures
            final(self)@.progress.script == old(self)@.progress.script,
            final(self)@.progress.excluded == old(self)@.progress.excluded,
            final(self)@.progress.only == old(self)@.progress.only,
            match request@ {
                RequestView::Finish(outcome) => outcome == Ok::<(), FailureView>(())
                    && final(self)@.outcome == Some(outcome),
                made => final(self)@.pending() == Some(made),
            },
            forall|env: Env| #[trigger]
                old(self)@.progress.requests(env) == if request@ is Finish {
                    Seq::<RequestView>::empty()
                } else {
                    seq![request@] + final(self)@.remaining(env)
                },
    {
        loop
            invariant
                self@.outcome is None,
                self@.progress.script == old(self)@.progress.script,
                self@.progress.excluded == old(self)@.progress.excluded,
                self@.progress.only == old(self)@.progress.only,
                forall|env: Env| #[trigger]
                    old(self)@.progress.requests(env) == self@.progress.requests(env),
            decreases self.script.len() - self.step, self.members.len() - self.member,
        {
            if self.step >= self.script.len() {
                self.waiting = false;
                self.outcome = Some(Ok(()));
                return Request::Finish(Ok(()));
            }
            match self.current() {
                Some(request) => {
                    self.waiting = true;
                    return request;
                },
                None => {
                    self.forward();
                },
            }
        }
    }

    /// Takes the reply to the request made last and gives the next request.
    ///
    /// The first call finds nothing pending and takes any reply, by custom
    /// [`Reply::Ready`], as the word to begin. Once the command has ended, every call gives
    /// [`Request::Finish`] with the same outcome. A reply that is not of the
    /// kind that the pending request calls for changes nothing: the same
    /// request is made again. A reply that reports a failure ends the
    /// command with that failure, and nothing more of the script is carried
    /// out. Any other reply is taken in, and the request made is the first
    /// of those that were still to come.
    pub fn advance(&mut self, reply: Reply) -> (request: Request)
        ensures
            final(self)@.progress.script == old(self)@.progress.script,
            final(self)@.progress.excluded == old(self)@.progress.excluded,
            final(self)@.progress.only == old(self)@.progress.only,
            old(self)@.outcome matches Some(outcome) ==> request@ == RequestView::Finish(outcome)
                && final(self)@ == old(self)@,
            old(self)@.pending() matches Some(pending) ==> (!fits(pending, reply@) ==> request@
                == pending && final(self)@ == old(self)@),
            old(self)@.pending() matches Some(pending) ==> (failure(pending, reply@) matches Some(
                failure,
            ) ==> request@ == RequestView::Finish(Err(failure)) && final(self)@ == old(
                self,
            )@.ended(Err(failure))),
            old(self)@.outcome is None && (old(self)@.pending() matches Some(pending) ==> fits(
                pending,
                reply@,
            ) && failure(pending, reply@) is None) ==> {
                &&& match request@ {
                    RequestView::Finish(outcome) => outcome == Ok::<(), FailureView>(())
                        && final(self)@.outcome == Some(outcome),
                    made => final(self)@.pending() == Some(made),
                }
                &&& forall|env: Env|
                    (old(self)@.pending() matches Some(pending) ==> env.reply_to(pending)
                        == reply@) ==> #[trigger] old(self)@.remaining(env) == if request@
                        is Finish {
                        Seq::<RequestView>::empty()
                    } else {
                        seq![request@] + final(self)@.remaining(env)
                    }
            },
    {
        if let Some(outcome) = &self.outcome {
            return Request::Finish(
                match outcome {
                    Ok(_) => Ok(()),
                    Err(failure) => Err(failure.clone()),
                },
            );
        }
        if self.waiting {
            match self.current() {
                Some(pending) => {
                    match (pending, reply) {
                        (Request::Ask(_), Reply::Answer(yes)) => {
                            self.answer = Some(yes);
                        },
                        (Request::ListMembers(_), Reply::Members(names)) => {
                            self.members = names;
                        },
                        (Request::CheckToolchain, Reply::Nightly(yes)) => {
                            self.nightly = Some(yes);
                        },
                        (Request::Install(_), Reply::Installed) => {},
                        (Request::Install(tool), Reply::NotInstalled(text)) => {
                            return self.fail(Failure::NotInstalled(tool, text));
                        },
                        (Request::Run(_), Reply::Exited(true)) => {},
                        (Request::Run(job), Reply::Exited(false)) => {
                            return self.fail(Failure::Unsuccessful(job));
                        },
                        (Request::Run(job), Reply::NotStarted(cause)) => {
                            return self.fail(Failure::NotStarted(job, cause));
                        },
                        (pending, _) => {
                            return pending;
                        },
                    }
                    self.forward();
                },
                None => {},
            }
        }
        self.seek()
    }

    /// Ends the command with `failure`.
    fn fail(&mut self, failure: Failure) -> (request: Request)
        ensures
            request@ == RequestView::Finish(Err(failure@)),
            final(self)@ == old(self)@.ended(Err(failure@)),
    {
        self.waiting = false;
        self.outcome = Some(Err(failure.clone()));
        Request::Finish(Err(failure))
    }
}

} // verus!
