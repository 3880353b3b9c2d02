//! The texts sent to the model: the memory of earlier conversations and the
//! prompts of each step of a run.
use vstd::prelude::*;
use crate::text::{decimal, join, join_view, push_decimal, views};

verus! {

/// A finished conversation as it is remembered: when it ended (milliseconds since
/// the Unix epoch), what was asked, a short summary, and the answer.
pub struct Conversation {
    pub time: u64,
    pub prompt: String,
    pub summary: String,
    pub result: String,
}

/// The summaries of `convs`, in order.
pub open spec fn summaries(convs: Seq<Conversation>) -> Seq<Seq<char>> {
    convs.map_values(|c: Conversation| c.summary@)
}

/// The line that recalls the summary of the `i`-th conversation (counted from 0).
pub open spec fn memory_line(i: int, summary: Seq<char>) -> Seq<char> {
    decimal((i + 1) as nat) + ". "@ + summary
}

/// The lines that recall `summaries`, numbered from 1.
pub open spec fn memory_lines(summaries: Seq<Seq<char>>) -> Seq<Seq<char>> {
    Seq::new(summaries.len(), |i: int| memory_line(i, summaries[i]))
}

/// The block of memory put in front of a prompt: nothing where there is no earlier
/// conversation, else a heading, one numbered line per summary, and a blank line.
pub open spec fn memory_block(summaries: Seq<Seq<char>>) -> Seq<char> {
    if summaries.len() == 0 {
        Seq::empty()
    } else {
        "다음은 사용자와의 이전 대화 요약입니다. 답변 시 이 맥락을 반드시 참고하세요.\n"@ + join_view(
            memory_lines(summaries),
            "\n"@,
        ) + "\n\n"@
    }
}

/// How many conversations are remembered, and the memory block made of them.
pub fn memory_context(convs: &Vec<Conversation>) -> (r: (usize, String))
    ensures
        r.0 == convs@.len(),
        r.1@ == memory_block(summaries(convs@)),
{
    if convs.len() == 0 {
        return (0, String::new());
    }
    let mut lines: Vec<String> = Vec::new();
    let mut i: usize = 0;
    while i < convs.len()
        invariant
            i <= convs@.len(),
            lines@.len() == i,
            forall|k: int| 0 <= k < i ==> (#[trigger] lines@[k])@ == memory_line(k, convs@[k].summary@),
        decreases convs@.len() - i,
    {
        let mut line = String::new();
        push_decimal(&mut line, (i + 1) as u64);
        line.append(". ");
        line.append(convs[i].summary.as_str());
        lines.push(line);
        i = i + 1;
    }
    assert(views(lines@) =~= memory_lines(summaries(convs@)));
    let mut block = "다음은 사용자와의 이전 대화 요약입니다. 답변 시 이 맥락을 반드시 참고하세요.\n".to_string();
    let body = join(&lines, "\n");
    block.append(body.as_str());
    block.append("\n\n");
    (convs.len(), block)
}

/// The prompt of a single answer: the memory block, then the request.
pub open spec fn single_prompt_view(memory: Seq<char>, prompt: Seq<char>) -> Seq<char> {
    memory + prompt
}

/// Builds the text that `single_prompt_view` describes.
pub fn single_prompt(memory: &str, prompt: &str) -> (r: String)
    ensures
        r@ == single_prompt_view(memory@, prompt@),
{
    let mut r = memory.to_string();
    r.append(prompt);
    r
}

/// The prompt that asks for the request to be split into two to four sub-tasks, one per line.
pub open spec fn decompose_prompt_view(memory: Seq<char>, prompt: Seq<char>) -> Seq<char> {
    memory + "다음 요청을 해결하기 위한 하위 작업을 2~4개로 나눠라. 각 줄에 하나씩 번호와 함께 간결하게만 출력하라. 다른 설명은 쓰지 마라.\n\n요청: "@ + prompt
}

/// Builds the text that `decompose_prompt_view` describes.
pub fn decompose_prompt(memory: &str, prompt: &str) -> (r: String)
    ensures
        r@ == decompose_prompt_view(memory@, prompt@),
{
    let mut r = memory.to_string();
    r.append("다음 요청을 해결하기 위한 하위 작업을 2~4개로 나눠라. 각 줄에 하나씩 번호와 함께 간결하게만 출력하라. 다른 설명은 쓰지 마라.\n\n요청: ");
    r.append(prompt);
    r
}

/// The prompt that asks for one sub-task to be carried out.
pub open spec fn work_prompt_view(memory: Seq<char>, prompt: Seq<char>, task: Seq<char>) -> Seq<char> {
    memory + "당신은 전문가입니다. 아래 하위 작업을 충실하고 구체적으로 수행해 결과만 제시하세요.\n\n전체 목표: "@ + prompt + "\n하위 작업: "@ + task
}

/// Builds the text that `work_prompt_view` describes.
pub fn work_prompt(memory: &str, prompt: &str, task: &str) -> (r: String)
    ensures
        r@ == work_prompt_view(memory@, prompt@, task@),
{
    let mut r = memory.to_string();
    r.append("당신은 전문가입니다. 아래 하위 작업을 충실하고 구체적으로 수행해 결과만 제시하세요.\n\n전체 목표: ");
    r.append(prompt);
    r.append("\n하위 작업: ");
    r.append(task);
    r
}

/// The prompt that asks for the sub-task results to be checked for errors, gaps and contradictions.
pub open spec fn review_prompt_view(prompt: Seq<char>, results: Seq<char>) -> Seq<char> {
    "다음은 한 요청에 대한 여러 부분 작업 결과입니다. 사실 오류, 누락, 모순을 짧게 지적하세요.\n\n요청: "@ + prompt + "\n\n결과들:\n"@ + results
}

/// Builds the text that `review_prompt_view` describes.
pub fn review_prompt(prompt: &str, results: &str) -> (r: String)
    ensures
        r@ == review_prompt_view(prompt@, results@),
{
    let mut r = "다음은 한 요청에 대한 여러 부분 작업 결과입니다. 사실 오류, 누락, 모순을 짧게 지적하세요.\n\n요청: ".to_string();
    r.append(prompt);
    r.append("\n\n결과들:\n");
    r.append(results);
    r
}

/// The prompt that asks for one final answer made of the sub-task results and the review.
pub open spec fn synthesis_prompt_view(memory: Seq<char>, prompt: Seq<char>, results: Seq<char>, review: Seq<char>) -> Seq<char> {
    memory + "다음 부분 결과와 검토 의견을 바탕으로, 원래 요청에 대한 하나의 완성되고 매끄러운 최종 답변을 작성하세요.\n\n요청: "@ + prompt + "\n\n부분 결과:\n"@ + results + "\n\n검토 의견:\n"@ + review
}

/// Builds the text that `synthesis_prompt_view` describes.
pub fn synthesis_prompt(memory: &str, prompt: &str, results: &str, review: &str) -> (r: String)
    ensures
        r@ == synthesis_prompt_view(memory@, prompt@, results@, review@),
{
    let mut r = memory.to_string();
    r.append("다음 부분 결과와 검토 의견을 바탕으로, 원래 요청에 대한 하나의 완성되고 매끄러운 최종 답변을 작성하세요.\n\n요청: ");
    r.append(prompt);
    r.append("\n\n부분 결과:\n");
    r.append(results);
    r.append("\n\n검토 의견:\n");
    r.append(review);
    r
}

/// The prompt that asks for a one- or two-sentence summary of a harness run, topic and conclusion only.
pub open spec fn harness_summary_prompt_view(prompt: Seq<char>, answer: Seq<char>) -> Seq<char> {
    "다음 요청과 답변을 한국어 1~2문장으로 요약하라. 핵심 주제와 결론만, 군더더기 없이.\n\n요청: "@ + prompt + "\n\n답변: "@ + answer
}

/// Builds the text that `harness_summary_prompt_view` describes.
pub fn harness_summary_prompt(prompt: &str, answer: &str) -> (r: String)
    ensures
        r@ == harness_summary_prompt_view(prompt@, answer@),
{
    let mut r = "다음 요청과 답변을 한국어 1~2문장으로 요약하라. 핵심 주제와 결론만, 군더더기 없이.\n\n요청: ".to_string();
    r.append(prompt);
    r.append("\n\n답변: ");
    r.append(answer);
    r
}

/// The prompt that asks for a one- or two-sentence summary of a single answer.
pub open spec fn single_summary_prompt_view(prompt: Seq<char>, answer: Seq<char>) -> Seq<char> {
    "다음 요청과 답변을 한국어 1~2문장으로 요약하라. 핵심만.\n\n요청: "@ + prompt + "\n\n답변: "@ + answer
}

/// Builds the text that `single_summary_prompt_view` describes.
pub fn single_summary_prompt(prompt: &str, answer: &str) -> (r: String)
    ensures
        r@ == single_summary_prompt_view(prompt@, answer@),
{
    let mut r = "다음 요청과 답변을 한국어 1~2문장으로 요약하라. 핵심만.\n\n요청: ".to_string();
    r.append(prompt);
    r.append("\n\n답변: ");
    r.append(answer);
    r
}

/// Every work prompt ends with the line that names its sub-task, whatever the
/// memory and the request, so two different sub-tasks of one run never share a
/// prompt (nor, through the cache, an answer).
pub proof fn work_prompt_names_its_task(memory: Seq<char>, prompt: Seq<char>, t1: Seq<char>, t2: Seq<char>)
    ensures
        ({
            let w = work_prompt_view(memory, prompt, t1);
            let tail = "\n하위 작업: "@ + t1;
            w.len() >= tail.len() && w.skip(w.len() - tail.len()) == tail
        }),
        t1 != t2 ==> work_prompt_view(memory, prompt, t1) != work_prompt_view(memory, prompt, t2),
{
    let head = memory + "당신은 전문가입니다. 아래 하위 작업을 충실하고 구체적으로 수행해 결과만 제시하세요.\n\n전체 목표: "@
        + prompt + "\n하위 작업: "@;
    let w1 = work_prompt_view(memory, prompt, t1);
    let w2 = work_prompt_view(memory, prompt, t2);
    assert(w1 =~= head + t1);
    assert(w2 =~= head + t2);
    let front = memory + "당신은 전문가입니다. 아래 하위 작업을 충실하고 구체적으로 수행해 결과만 제시하세요.\n\n전체 목표: "@
        + prompt;
    let tail = "\n하위 작업: "@ + t1;
    assert(w1 =~= front + tail);
    assert(w1.skip(w1.len() - tail.len()) =~= tail);
    if w1 == w2 {
        assert(t1.len() == t2.len());
        assert(w1.skip(head.len() as int) =~= t1);
        assert(w2.skip(head.len() as int) =~= t2);
    }
}

/// The memory block grows by one numbered line per conversation: with no earlier
/// conversation it is empty; the first conversation gives the heading and line
/// `1. ` with its summary; and each later one keeps every earlier line, in order,
/// and adds its own line, numbered one past the conversations before it, just
/// before the closing blank line.
pub proof fn memory_keeps_every_summary(s: Seq<Seq<char>>, x: Seq<char>)
    ensures
        memory_block(Seq::empty()).len() == 0,
        s.len() == 0 ==> memory_block(s.push(x))
            == "다음은 사용자와의 이전 대화 요약입니다. 답변 시 이 맥락을 반드시 참고하세요.\n"@ + "1"@
            + ". "@ + x + "\n\n"@,
        s.len() > 0 ==> memory_block(s.push(x)) == memory_block(s).take(
            memory_block(s).len() - 2,
        ) + "\n"@ + decimal((s.len() + 1) as nat) + ". "@ + x + "\n\n"@,
{
    reveal_strlit("\n\n");
    reveal_strlit("1");
    let h = "다음은 사용자와의 이전 대화 요약입니다. 답변 시 이 맥락을 반드시 참고하세요.\n"@;
    let line = memory_line(s.len() as int, x);
    assert(memory_lines(s.push(x)) =~= memory_lines(s).push(line));
    if s.len() == 0 {
        assert(memory_lines(s.push(x)) =~= seq![line]);
        assert(decimal(1) =~= "1"@);
        assert(memory_block(s.push(x)) =~= h + "1"@ + ". "@ + x + "\n\n"@);
    } else {
        let j = join_view(memory_lines(s), "\n"@);
        assert(memory_lines(s.push(x)).drop_last() =~= memory_lines(s));
        assert(join_view(memory_lines(s.push(x)), "\n"@) == j + "\n"@ + line);
        assert(memory_block(s) =~= (h + j) + "\n\n"@);
        assert(memory_block(s).take(memory_block(s).len() - 2) =~= h + j);
        assert(memory_block(s.push(x)) =~= h + j + "\n"@ + decimal((s.len() + 1) as nat) + ". "@ + x
            + "\n\n"@);
    }
}

} // verus!
