//! A harness run: the request is split into sub-tasks, each sub-task is worked
//! on, the results are reviewed and then merged into one answer, which is
//! summarised and remembered. A single run answers at once and is remembered the
//! same way. The outside work (calls to the model, saving) is asked for by the
//! requests that each step hands out.
use vstd::prelude::*;
use crate::prompts::{
    decompose_prompt, decompose_prompt_view, harness_summary_prompt, harness_summary_prompt_view,
    review_prompt, review_prompt_view, single_prompt, single_prompt_view, single_summary_prompt,
    single_summary_prompt_view, synthesis_prompt, synthesis_prompt_view, work_prompt,
    work_prompt_view,
};
use crate::text::{
    chars_of, decimal, join, join_view, newline_bounds, prefix_chars, prefix_view, push_decimal,
    segments, string_from, trim_bounds, trim_view, views,
};

verus! {

/// A character that numbering in front of a sub-task may be made of: an ASCII
/// digit, `.`, `)`, `-` or a space.
pub open spec fn is_marker(c: char) -> bool {
    ('0' <= c && c <= '9') || c == '.' || c == ')' || c == '-' || c == ' '
}

/// How many marker characters `s` starts with.
pub open spec fn leading_markers(s: Seq<char>) -> nat
    decreases s.len(),
{
    if s.len() > 0 && is_marker(s[0]) {
        1 + leading_markers(s.drop_first())
    } else {
        0
    }
}

/// A line of the model's reply made into a sub-task: trimmed, its numbering cut
/// off, and trimmed again.
pub open spec fn clean_line(s: Seq<char>) -> Seq<char> {
    let t = trim_view(s);
    trim_view(t.skip(leading_markers(t) as int))
}

/// The non-empty cleaned lines of `lines`, in order.
pub open spec fn candidates(lines: Seq<Seq<char>>) -> Seq<Seq<char>>
    decreases lines.len(),
{
    if lines.len() == 0 {
        Seq::empty()
    } else {
        let p = candidates(lines.drop_last());
        let c = clean_line(lines.last());
        if c.len() == 0 {
            p
        } else {
            p.push(c)
        }
    }
}

/// The sub-tasks read from the reply `raw` to the splitting prompt: its non-empty
/// cleaned lines, at most four of them; the request itself where there is none.
/// (A line is what lies between line feeds; a carriage return before a line feed
/// is whitespace that cleaning removes.)
pub open spec fn subtasks_of(raw: Seq<char>, prompt: Seq<char>) -> Seq<Seq<char>> {
    let c = candidates(segments(raw));
    if c.len() == 0 {
        seq![prompt]
    } else if c.len() <= 4 {
        c
    } else {
        c.take(4)
    }
}

/// The bounds of the cleaned form of `v[from..to]`.
fn clean_bounds(v: &Vec<char>, from: usize, to: usize) -> (r: (usize, usize))
    requires
        from <= to <= v@.len(),
    ensures
        r.0 <= r.1 <= v@.len(),
        v@.subrange(r.0 as int, r.1 as int) == clean_line(v@.subrange(from as int, to as int)),
{
    let (x, y) = trim_bounds(v, from, to);
    let mut m = x;
    while m < y && (('0' <= v[m] && v[m] <= '9') || v[m] == '.' || v[m] == ')' || v[m] == '-'
        || v[m] == ' ')
        invariant
            x <= m <= y <= v@.len(),
            leading_markers(v@.subrange(x as int, y as int)) == (m - x) + leading_markers(
                v@.subrange(m as int, y as int),
            ),
        decreases y - m,
    {
        assert(v@.subrange(m as int, y as int).drop_first() =~= v@.subrange(m + 1, y as int));
        m = m + 1;
    }
    assert(leading_markers(v@.subrange(m as int, y as int)) == 0);
    let ghost t = v@.subrange(x as int, y as int);
    assert(t.skip(leading_markers(t) as int) =~= v@.subrange(m as int, y as int));
    trim_bounds(v, m, y)
}

/// The sub-tasks in the reply `raw`, with `prompt` as the one sub-task where the
/// reply names none.
pub fn parse_subtasks(raw: &str, prompt: &str) -> (r: Vec<String>)
    ensures
        views(r@) == subtasks_of(raw@, prompt@),
        1 <= r@.len() <= 4,
{
    let v = chars_of(raw);
    let (bounds, last_start) = newline_bounds(&v);
    let ghost segs = segments(v@);
    let mut found: Vec<String> = Vec::new();
    let mut k: usize = 0;
    assert(segs.take(0) =~= Seq::<Seq<char>>::empty());
    while k < bounds.len()
        invariant
            k <= bounds@.len(),
            segs == segments(v@),
            segs.len() == bounds@.len() + 1,
            forall|j: int|
                #![trigger bounds@[j]]
                0 <= j < bounds@.len() ==> bounds@[j].0 <= bounds@[j].1 <= v@.len() && segs[j]
                    == v@.subrange(bounds@[j].0 as int, bounds@[j].1 as int),
            views(found@) == candidates(segs.take(k as int)),
        decreases bounds@.len() - k,
    {
        let (a, b) = bounds[k];
        assert(bounds@[k as int].0 <= bounds@[k as int].1 <= v@.len());
        let (p, q) = clean_bounds(&v, a, b);
        assert(segs.take(k + 1).drop_last() =~= segs.take(k as int));
        assert(segs.take(k + 1).last() == segs[k as int]);
        if p < q {
            let line = string_from(&v, p, q);
            found.push(line);
            assert(views(found@) =~= views(found@.drop_last()).push(line@));
        }
        k = k + 1;
    }
    let (p, q) = clean_bounds(&v, last_start, v.len());
    assert(segs.drop_last() =~= segs.take(k as int));
    if p < q {
        let line = string_from(&v, p, q);
        found.push(line);
        assert(views(found@) =~= views(found@.drop_last()).push(line@));
    }
    assert(views(found@) == candidates(segs));
    if found.len() == 0 {
        let mut r: Vec<String> = Vec::new();
        r.push(prompt.to_string());
        assert(views(r@) =~= seq![prompt@]);
        r
    } else {
        if found.len() > 4 {
            found.truncate(4);
            assert(views(found@) =~= candidates(segs).take(4));
        }
        found
    }
}

/// The views of the outcomes of several calls.
pub open spec fn outcome_views(v: Seq<Result<String, String>>) -> Seq<Result<Seq<char>, Seq<char>>> {
    v.map_values(
        |o: Result<String, String>|
            match o {
                Ok(t) => Ok(t@),
                Err(e) => Err(e@),
            },
    )
}

/// The first error among `outcomes`, if any.
pub open spec fn first_error(outcomes: Seq<Result<Seq<char>, Seq<char>>>) -> Option<Seq<char>>
    decreases outcomes.len(),
{
    if outcomes.len() == 0 {
        None
    } else {
        match first_error(outcomes.drop_last()) {
            Some(e) => Some(e),
            None => match outcomes.last() {
                Err(e) => Some(e),
                Ok(_) => None,
            },
        }
    }
}

/// The text of a successful outcome; nothing for a failed one.
pub open spec fn ok_text(o: Result<Seq<char>, Seq<char>>) -> Seq<char> {
    match o {
        Ok(t) => t,
        Err(_) => Seq::empty(),
    }
}

/// The result of one sub-task as the review and the synthesis see it.
pub open spec fn work_output(task: Seq<char>, output: Seq<char>) -> Seq<char> {
    "[하위 작업] "@ + task + "\n"@ + output
}

/// The results of all sub-tasks, each headed by its sub-task, separated by rules.
pub open spec fn joined_outputs(tasks: Seq<Seq<char>>, outcomes: Seq<Result<Seq<char>, Seq<char>>>) -> Seq<char> {
    join_view(
        Seq::new(tasks.len(), |i: int| work_output(tasks[i], ok_text(outcomes[i]))),
        "\n\n---\n\n"@,
    )
}

/// The work prompt of each sub-task, in order.
pub open spec fn work_prompts(memory: Seq<char>, prompt: Seq<char>, tasks: Seq<Seq<char>>) -> Seq<Seq<char>> {
    Seq::new(tasks.len(), |i: int| work_prompt_view(memory, prompt, tasks[i]))
}

/// The results of the sub-tasks `tasks`, whose calls gave `outcomes` in the same
/// order: the first error if any call failed, else the joined results.
pub fn join_work(tasks: &Vec<String>, outcomes: &Vec<Result<String, String>>) -> (r: Result<String, String>)
    requires
        tasks@.len() == outcomes@.len(),
    ensures
        match first_error(outcome_views(outcomes@)) {
            Some(e) => r matches Err(m) && m@ == e,
            None => r matches Ok(t) && t@ == joined_outputs(views(tasks@), outcome_views(outcomes@)),
        },
{
    let ghost ov = outcome_views(outcomes@);
    let mut parts: Vec<String> = Vec::new();
    let mut i: usize = 0;
    assert(ov.take(0) =~= Seq::<Result<Seq<char>, Seq<char>>>::empty());
    while i < outcomes.len()
        invariant
            i <= outcomes@.len() == tasks@.len(),
            ov == outcome_views(outcomes@),
            first_error(ov.take(i as int)) is None,
            parts@.len() == i,
            forall|k: int|
                0 <= k < i ==> (#[trigger] parts@[k])@ == work_output(tasks@[k]@, ok_text(ov[k])),
        decreases outcomes@.len() - i,
    {
        assert(ov.take(i + 1).drop_last() =~= ov.take(i as int));
        assert(ov.take(i + 1).last() == ov[i as int]);
        match &outcomes[i] {
            Err(e) => {
                proof {
                    lemma_first_error_prefix(ov, i as int + 1);
                }
                return Err(e.clone());
            },
            Ok(out) => {
                let mut part = "[하위 작업] ".to_string();
                part.append(tasks[i].as_str());
                part.append("\n");
                part.append(out.as_str());
                parts.push(part);
            },
        }
        i = i + 1;
    }
    assert(ov.take(ov.len() as int) =~= ov);
    assert(views(parts@) =~= Seq::new(
        views(tasks@).len(),
        |k: int| work_output(views(tasks@)[k], ok_text(ov[k])),
    ));
    Ok(join(&parts, "\n\n---\n\n"))
}

/// An error in the first `n` outcomes is the first error of all of them.
proof fn lemma_first_error_prefix(s: Seq<Result<Seq<char>, Seq<char>>>, n: int)
    requires
        0 <= n <= s.len(),
        first_error(s.take(n)) is Some,
    ensures
        first_error(s) == first_error(s.take(n)),
    decreases s.len(),
{
    if n < s.len() {
        assert(s.drop_last().take(n) =~= s.take(n));
        lemma_first_error_prefix(s.drop_last(), n);
    } else {
        assert(s.take(n) =~= s);
    }
}

/// The detail shown when splitting is done: how many sub-tasks there are.
pub fn split_done_detail(n: usize) -> (r: String)
    ensures
        r@ == decimal(n as nat) + "개 하위 작업으로 분해"@,
{
    let mut r = String::new();
    push_decimal(&mut r, n as u64);
    r.append("개 하위 작업으로 분해");
    r
}

/// The detail shown when work starts: how many sub-tasks run side by side.
pub fn work_start_detail(n: usize) -> (r: String)
    ensures
        r@ == decimal(n as nat) + "개 하위 작업 병렬 수행 중..."@,
{
    let mut r = String::new();
    push_decimal(&mut r, n as u64);
    r.append("개 하위 작업 병렬 수행 중...");
    r
}

/// Which kind of run: one answer at once, or the full harness.
#[derive(Clone, Copy)]
pub enum Mode {
    Single,
    Harness,
}

/// The step a run waits in.
#[derive(Clone, Copy)]
pub enum Stage {
    /// Waiting for the reply that splits the request into sub-tasks.
    Split,
    /// Waiting for the results of all sub-tasks.
    Work,
    /// Waiting for the review of the results.
    Review,
    /// Waiting for the final answer of a harness run.
    Synthesize,
    /// Waiting for the answer of a single run.
    Answer,
    /// Waiting for the summary of the answer.
    Summarize,
    /// The run is over.
    Finished,
}

/// The outside work that a run asks for next.
pub enum Request {
    /// Generate a reply to this prompt at once.
    Generate(String),
    /// Generate a reply to this prompt, streaming its tokens to the user.
    Stream(String),
    /// Generate replies to these prompts, side by side, from the cache where it
    /// has them; the outcomes come back in the same order.
    Work(Vec<String>),
    /// Remember the conversation with this summary and answer, then return the
    /// answer.
    Save { summary: String, answer: String },
    /// End the run with this error.
    Fail(String),
}

/// A run in progress: the request, the memory block in front of it, the step it
/// waits in, and what the earlier steps produced.
pub struct Run {
    pub mode: Mode,
    pub prompt: String,
    pub memory: String,
    pub stage: Stage,
    pub subtasks: Vec<String>,
    pub joined: String,
    pub review: String,
    pub answer: String,
}

/// How many characters of the request stand in for a summary that could not be
/// generated.
pub const SUMMARY_FALLBACK_CHARS: usize = 60;

/// How far along its steps a run in `stage` is; every step moves a run further.
pub open spec fn stage_rank(stage: Stage) -> nat {
    match stage {
        Stage::Split => 0,
        Stage::Answer => 0,
        Stage::Work => 1,
        Stage::Review => 2,
        Stage::Synthesize => 3,
        Stage::Summarize => 4,
        Stage::Finished => 5,
    }
}

impl Run {
    /// Whether the run waits for the reply to one prompt.
    pub open spec fn awaits_text(&self) -> bool {
        match self.stage {
            Stage::Split | Stage::Review | Stage::Synthesize | Stage::Answer | Stage::Summarize => true,
            _ => false,
        }
    }

    /// Whether the run keeps what it was started with.
    pub open spec fn same_request(&self, other: &Run) -> bool {
        &&& self.mode == other.mode
        &&& self.prompt@ == other.prompt@
        &&& self.memory@ == other.memory@
    }

    /// A single run: the answer is streamed at once.
    pub fn single(prompt: &str, memory: &str) -> (r: (Run, Request))
        ensures
            r.0.mode is Single,
            r.0.stage is Answer,
            r.0.prompt@ == prompt@,
            r.0.memory@ == memory@,
            r.1 matches Request::Stream(p) && p@ == single_prompt_view(memory@, prompt@),
    {
        let run = Run {
            mode: Mode::Single,
            prompt: prompt.to_string(),
            memory: memory.to_string(),
            stage: Stage::Answer,
            subtasks: Vec::new(),
            joined: String::new(),
            review: String::new(),
            answer: String::new(),
        };
        (run, Request::Stream(single_prompt(memory, prompt)))
    }

    /// A harness run: the request is first split into sub-tasks.
    pub fn harness(prompt: &str, memory: &str) -> (r: (Run, Request))
        ensures
            r.0.mode is Harness,
            r.0.stage is Split,
            r.0.prompt@ == prompt@,
            r.0.memory@ == memory@,
            r.1 matches Request::Generate(p) && p@ == decompose_prompt_view(memory@, prompt@),
    {
        let run = Run {
            mode: Mode::Harness,
            prompt: prompt.to_string(),
            memory: memory.to_string(),
            stage: Stage::Split,
            subtasks: Vec::new(),
            joined: String::new(),
            review: String::new(),
            answer: String::new(),
        };
        (run, Request::Generate(decompose_prompt(memory, prompt)))
    }

    /// The next step once the one prompt the run waited for has its `outcome`.
    /// A failed call ends the run with its error, except that of the summary,
    /// for which the first sixty characters of the request stand in.
    pub fn on_text(self, outcome: Result<String, String>) -> (r: (Run, Request))
        requires
            self.awaits_text(),
        ensures
            r.0.same_request(&self),
            stage_rank(r.0.stage) > stage_rank(self.stage),
            match (self.stage, outcome) {
                (Stage::Summarize, Ok(s)) => {
                    &&& r.0.stage is Finished
                    &&& r.1 matches Request::Save { summary, answer } && summary@ == s@ && answer@
                        == self.answer@
                },
                (Stage::Summarize, Err(_)) => {
                    &&& r.0.stage is Finished
                    &&& r.1 matches Request::Save { summary, answer } && summary@ == prefix_view(
                        self.prompt@,
                        SUMMARY_FALLBACK_CHARS as nat,
                    ) && answer@ == self.answer@
                },
                (_, Err(e)) => {
                    &&& r.0.stage is Finished
                    &&& r.1 matches Request::Fail(m) && m@ == e@
                },
                (Stage::Split, Ok(raw)) => {
                    &&& r.0.stage is Work
                    &&& views(r.0.subtasks@) == subtasks_of(raw@, self.prompt@)
                    &&& 1 <= r.0.subtasks@.len() <= 4
                    &&& r.1 matches Request::Work(ps) && views(ps@) == work_prompts(
                        self.memory@,
                        self.prompt@,
                        views(r.0.subtasks@),
                    )
                },
                (Stage::Review, Ok(rv)) => {
                    &&& r.0.stage is Synthesize
                    &&& r.0.review@ == rv@
                    &&& r.0.joined@ == self.joined@
                    &&& r.1 matches Request::Stream(p) && p@ == synthesis_prompt_view(
                        self.memory@,
                        self.prompt@,
                        self.joined@,
                        rv@,
                    )
                },
                (Stage::Synthesize, Ok(a)) => {
                    &&& r.0.stage is Summarize
                    &&& r.0.answer@ == a@
                    &&& r.1 matches Request::Generate(p) && p@ == harness_summary_prompt_view(
                        self.prompt@,
                        a@,
                    )
                },
                (Stage::Answer, Ok(a)) => {
                    &&& r.0.stage is Summarize
                    &&& r.0.answer@ == a@
                    &&& r.1 matches Request::Generate(p) && p@ == single_summary_prompt_view(
                        self.prompt@,
                        a@,
                    )
                },
                _ => false,
            },
    {
        let mut run = self;
        match run.stage {
            Stage::Summarize => {
                let summary = match outcome {
                    Ok(s) => s,
                    Err(_) => prefix_chars(run.prompt.as_str(), SUMMARY_FALLBACK_CHARS),
                };
                run.stage = Stage::Finished;
                let answer = run.answer.clone();
                (run, Request::Save { summary, answer })
            },
            _ => match outcome {
                Err(e) => {
                    run.stage = Stage::Finished;
                    (run, Request::Fail(e))
                },
                Ok(text) => match run.stage {
                    Stage::Split => {
                        let subtasks = parse_subtasks(text.as_str(), run.prompt.as_str());
                        let mut prompts: Vec<String> = Vec::new();
                        let mut i: usize = 0;
                        while i < subtasks.len()
                            invariant
                                i <= subtasks@.len(),
                                prompts@.len() == i,
                                forall|k: int|
                                    0 <= k < i ==> (#[trigger] prompts@[k])@ == work_prompt_view(
                                        run.memory@,
                                        run.prompt@,
                                        subtasks@[k]@,
                                    ),
                            decreases subtasks@.len() - i,
                        {
                            prompts.push(
                                work_prompt(
                                    run.memory.as_str(),
                                    run.prompt.as_str(),
                                    subtasks[i].as_str(),
                                ),
                            );
                            i = i + 1;
                        }
                        assert(views(prompts@) =~= work_prompts(
                            run.memory@,
                            run.prompt@,
                            views(subtasks@),
                        ));
                        run.subtasks = subtasks;
                        run.stage = Stage::Work;
                        (run, Request::Work(prompts))
                    },
                    Stage::Review => {
                        let p = synthesis_prompt(
                            run.memory.as_str(),
                            run.prompt.as_str(),
                            run.joined.as_str(),
                            text.as_str(),
                        );
                        run.review = text;
                        run.stage = Stage::Synthesize;
                        (run, Request::Stream(p))
                    },
                    Stage::Synthesize => {
                        let p = harness_summary_prompt(run.prompt.as_str(), text.as_str());
                        run.answer = text;
                        run.stage = Stage::Summarize;
                        (run, Request::Generate(p))
                    },
                    _ => {
                        let p = single_summary_prompt(run.prompt.as_str(), text.as_str());
                        run.answer = text;
                        run.stage = Stage::Summarize;
                        (run, Request::Generate(p))
                    },
                },
            },
        }
    }

    /// The next step once the sub-tasks' calls have given `outcomes`, in the order
    /// of the sub-tasks: the first error ends the run; else the results are sent
    /// to review.
    pub fn on_work(self, outcomes: Vec<Result<String, String>>) -> (r: (Run, Request))
        requires
            self.stage is Work,
            outcomes@.len() == self.subtasks@.len(),
        ensures
            r.0.same_request(&self),
            stage_rank(r.0.stage) > stage_rank(self.stage),
            match first_error(outcome_views(outcomes@)) {
                Some(e) => {
                    &&& r.0.stage is Finished
                    &&& r.1 matches Request::Fail(m) && m@ == e
                },
                None => {
                    &&& r.0.stage is Review
                    &&& r.0.joined@ == joined_outputs(views(self.subtasks@), outcome_views(outcomes@))
                    &&& r.1 matches Request::Generate(p) && p@ == review_prompt_view(
                        self.prompt@,
                        r.0.joined@,
                    )
                },
            },
    {
        let mut run = self;
        match join_work(&run.subtasks, &outcomes) {
            Err(e) => {
                run.stage = Stage::Finished;
                (run, Request::Fail(e))
            },
            Ok(joined) => {
                let p = review_prompt(run.prompt.as_str(), joined.as_str());
                run.joined = joined;
                run.stage = Stage::Review;
                (run, Request::Generate(p))
            },
        }
    }
}

/// A note on a run's progress, as the window shows it.
pub ghost enum ProgressView {
    /// A step (`decompose`, `work`, `review`, `synthesize`), its status (`start`
    /// or `done`) and a detail.
    Step(Seq<char>, Seq<char>, Seq<char>),
    /// The sub-tasks the request was split into.
    Subtasks(Seq<Seq<char>>),
}

/// A note on a run's progress.
pub enum Progress {
    Step { phase: String, status: String, detail: String },
    Subtasks(Vec<String>),
}

impl View for Progress {
    type V = ProgressView;

    open spec fn view(&self) -> ProgressView {
        match self {
            Progress::Step { phase, status, detail } => ProgressView::Step(phase@, status@, detail@),
            Progress::Subtasks(t) => ProgressView::Subtasks(views(t@)),
        }
    }
}

/// The views of a sequence of notes.
pub open spec fn progress_views(v: Seq<Progress>) -> Seq<ProgressView> {
    v.map_values(|p: Progress| p@)
}

/// The notes shown when a run starts: a harness run announces its splitting; a
/// single run shows no step.
pub open spec fn opening_notes(mode: Mode) -> Seq<ProgressView> {
    match mode {
        Mode::Single => Seq::empty(),
        Mode::Harness => seq![ProgressView::Step("decompose"@, "start"@, "요청을 하위 작업으로 분해 중..."@)],
    }
}

/// The notes shown when a harness run has moved from `before` to where `after`
/// stands: each step that succeeded is marked done and the next one started. A
/// single run, and a run that failed or ended, shows none.
pub open spec fn notes_after(before: Stage, after: Run) -> Seq<ProgressView> {
    match after.mode {
        Mode::Single => Seq::empty(),
        Mode::Harness => match (before, after.stage) {
            (Stage::Split, Stage::Work) => seq![
                ProgressView::Step(
                    "decompose"@,
                    "done"@,
                    decimal(after.subtasks@.len()) + "개 하위 작업으로 분해"@,
                ),
                ProgressView::Subtasks(views(after.subtasks@)),
                ProgressView::Step(
                    "work"@,
                    "start"@,
                    decimal(after.subtasks@.len()) + "개 하위 작업 병렬 수행 중..."@,
                ),
            ],
            (Stage::Work, Stage::Review) => seq![
                ProgressView::Step("work"@, "done"@, Seq::empty()),
                ProgressView::Step("review"@, "start"@, "결과 교차 검증 중..."@),
            ],
            (Stage::Review, Stage::Synthesize) => seq![
                ProgressView::Step("review"@, "done"@, after.review@),
                ProgressView::Step("synthesize"@, "start"@, "최종 결과물 종합 중..."@),
            ],
            (Stage::Synthesize, Stage::Summarize) => seq![
                ProgressView::Step("synthesize"@, "done"@, "완료"@),
            ],
            _ => Seq::empty(),
        },
    }
}

fn note(phase: &str, status: &str, detail: &str) -> (p: Progress)
    ensures
        p@ == ProgressView::Step(phase@, status@, detail@),
{
    Progress::Step { phase: phase.to_string(), status: status.to_string(), detail: detail.to_string() }
}

impl Run {
    /// The notes to show as the run starts.
    pub fn opening_progress(&self) -> (r: Vec<Progress>)
        ensures
            progress_views(r@) == opening_notes(self.mode),
    {
        let mut r: Vec<Progress> = Vec::new();
        match self.mode {
            Mode::Single => {},
            Mode::Harness => {
                r.push(note("decompose", "start", "요청을 하위 작업으로 분해 중..."));
            },
        }
        assert(progress_views(r@) =~= opening_notes(self.mode));
        r
    }

    /// The notes to show now that the run has moved on from `before`.
    pub fn progress_since(&self, before: Stage) -> (r: Vec<Progress>)
        ensures
            progress_views(r@) == notes_after(before, *self),
    {
        let mut r: Vec<Progress> = Vec::new();
        match self.mode {
            Mode::Single => {},
            Mode::Harness => match (before, self.stage) {
                (Stage::Split, Stage::Work) => {
                    let n = self.subtasks.len();
                    r.push(note("decompose", "done", split_done_detail(n).as_str()));
                    let mut tasks: Vec<String> = Vec::new();
                    let mut i: usize = 0;
                    while i < self.subtasks.len()
                        invariant
                            i <= self.subtasks@.len(),
                            views(tasks@) == views(self.subtasks@.take(i as int)),
                        decreases self.subtasks@.len() - i,
                    {
                        let c = self.subtasks[i].clone();
                        let ghost before_push = tasks@;
                        tasks.push(c);
                        assert(views(tasks@) =~= views(before_push).push(c@));
                        assert(views(self.subtasks@.take(i + 1)) =~= views(
                            self.subtasks@.take(i as int),
                        ).push(self.subtasks@[i as int]@));
                        i = i + 1;
                    }
                    assert(self.subtasks@.take(self.subtasks@.len() as int) =~= self.subtasks@);
                    r.push(Progress::Subtasks(tasks));
                    r.push(note("work", "start", work_start_detail(n).as_str()));
                    assert(progress_views(r@) =~= notes_after(before, *self));
                },
                (Stage::Work, Stage::Review) => {
                    r.push(note("work", "done", ""));
                    r.push(note("review", "start", "결과 교차 검증 중..."));
                    proof {
                        reveal_strlit("");
                    }
                    assert(""@ =~= Seq::<char>::empty());
                    assert(progress_views(r@) =~= notes_after(before, *self));
                },
                (Stage::Review, Stage::Synthesize) => {
                    r.push(note("review", "done", self.review.as_str()));
                    r.push(note("synthesize", "start", "최종 결과물 종합 중..."));
                    assert(progress_views(r@) =~= notes_after(before, *self));
                },
                (Stage::Synthesize, Stage::Summarize) => {
                    r.push(note("synthesize", "done", "완료"));
                    assert(progress_views(r@) =~= notes_after(before, *self));
                },
                _ => {},
            },
        }
        assert(progress_views(r@) =~= notes_after(before, *self));
        r
    }
}

} // verus!
