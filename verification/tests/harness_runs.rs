use local_ai_harness::harness::{
    join_work, parse_subtasks, split_done_detail, work_start_detail, Request, Run, Stage,
};
use local_ai_harness::prompts::{
    decompose_prompt, harness_summary_prompt, memory_context, review_prompt, single_prompt,
    single_summary_prompt, synthesis_prompt, work_prompt, Conversation,
};

fn conv(summary: &str) -> Conversation {
    Conversation {
        time: 1,
        prompt: "p".to_string(),
        summary: summary.to_string(),
        result: "r".to_string(),
    }
}

#[test]
fn memory_context_empty_and_numbered() {
    assert_eq!(memory_context(&vec![]), (0, String::new()));
    let (n, block) = memory_context(&vec![conv("첫 대화"), conv("둘째")]);
    assert_eq!(n, 2);
    assert_eq!(
        block,
        "다음은 사용자와의 이전 대화 요약입니다. 답변 시 이 맥락을 반드시 참고하세요.\n1. 첫 대화\n2. 둘째\n\n"
    );
}

#[test]
fn prompt_texts() {
    assert_eq!(single_prompt("M", "Q"), "MQ");
    assert_eq!(
        decompose_prompt("M", "Q"),
        "M다음 요청을 해결하기 위한 하위 작업을 2~4개로 나눠라. 각 줄에 하나씩 번호와 함께 간결하게만 출력하라. 다른 설명은 쓰지 마라.\n\n요청: Q"
    );
    assert_eq!(
        work_prompt("M", "Q", "T"),
        "M당신은 전문가입니다. 아래 하위 작업을 충실하고 구체적으로 수행해 결과만 제시하세요.\n\n전체 목표: Q\n하위 작업: T"
    );
    assert_eq!(
        review_prompt("Q", "R"),
        "다음은 한 요청에 대한 여러 부분 작업 결과입니다. 사실 오류, 누락, 모순을 짧게 지적하세요.\n\n요청: Q\n\n결과들:\nR"
    );
    assert_eq!(
        synthesis_prompt("M", "Q", "R", "V"),
        "M다음 부분 결과와 검토 의견을 바탕으로, 원래 요청에 대한 하나의 완성되고 매끄러운 최종 답변을 작성하세요.\n\n요청: Q\n\n부분 결과:\nR\n\n검토 의견:\nV"
    );
    assert_eq!(
        harness_summary_prompt("Q", "A"),
        "다음 요청과 답변을 한국어 1~2문장으로 요약하라. 핵심 주제와 결론만, 군더더기 없이.\n\n요청: Q\n\n답변: A"
    );
    assert_eq!(
        single_summary_prompt("Q", "A"),
        "다음 요청과 답변을 한국어 1~2문장으로 요약하라. 핵심만.\n\n요청: Q\n\n답변: A"
    );
}

#[test]
fn subtasks_from_numbered_lines() {
    let raw = "1. 자료 조사\n2) 정리하기\n\n- 초안 작성 \r\n  3.  검토";
    assert_eq!(parse_subtasks(raw, "Q"), vec!["자료 조사", "정리하기", "초안 작성", "검토"]);
}

#[test]
fn subtasks_are_at_most_four() {
    let raw = "1. a\n2. b\n3. c\n4. d\n5. e\n";
    assert_eq!(parse_subtasks(raw, "Q"), vec!["a", "b", "c", "d"]);
}

#[test]
fn subtasks_fall_back_to_the_request() {
    assert_eq!(parse_subtasks("", "요청"), vec!["요청"]);
    assert_eq!(parse_subtasks("1.\n 2) \n---\n", "요청"), vec!["요청"]);
}

#[test]
fn subtask_numbering_only_at_the_start() {
    assert_eq!(parse_subtasks("10.5 버전 확인 1. 2.", "Q"), vec!["버전 확인 1. 2."]);
}

#[test]
fn work_results_joined_or_first_error() {
    let tasks = vec!["t1".to_string(), "t2".to_string()];
    let ok = vec![Ok("o1".to_string()), Ok("o2".to_string())];
    assert_eq!(
        join_work(&tasks, &ok),
        Ok("[하위 작업] t1\no1\n\n---\n\n[하위 작업] t2\no2".to_string())
    );
    let bad = vec![Ok("o1".to_string()), Err("e2".to_string())];
    assert_eq!(join_work(&tasks, &bad), Err("e2".to_string()));
    let worse = vec![Err("e1".to_string()), Err("e2".to_string())];
    assert_eq!(join_work(&tasks, &worse), Err("e1".to_string()));
}

#[test]
fn step_details() {
    assert_eq!(split_done_detail(3), "3개 하위 작업으로 분해");
    assert_eq!(work_start_detail(4), "4개 하위 작업 병렬 수행 중...");
}

#[test]
fn a_harness_run_from_start_to_end() {
    let (run, req) = Run::harness("Q", "M");
    assert!(matches!(run.stage, Stage::Split));
    match &req {
        Request::Generate(p) => assert_eq!(*p, decompose_prompt("M", "Q")),
        _ => panic!("expected a generation"),
    }
    let (run, req) = run.on_text(Ok("1. a\n2. b".to_string()));
    assert_eq!(run.subtasks, vec!["a", "b"]);
    match &req {
        Request::Work(ps) => {
            assert_eq!(*ps, vec![work_prompt("M", "Q", "a"), work_prompt("M", "Q", "b")])
        }
        _ => panic!("expected work"),
    }
    let (run, req) = run.on_work(vec![Ok("x".to_string()), Ok("y".to_string())]);
    let joined = "[하위 작업] a\nx\n\n---\n\n[하위 작업] b\ny";
    assert_eq!(run.joined, joined);
    match &req {
        Request::Generate(p) => assert_eq!(*p, review_prompt("Q", joined)),
        _ => panic!("expected the review"),
    }
    let (run, req) = run.on_text(Ok("fine".to_string()));
    match &req {
        Request::Stream(p) => assert_eq!(*p, synthesis_prompt("M", "Q", joined, "fine")),
        _ => panic!("expected the synthesis"),
    }
    let (run, req) = run.on_text(Ok("ANSWER".to_string()));
    match &req {
        Request::Generate(p) => assert_eq!(*p, harness_summary_prompt("Q", "ANSWER")),
        _ => panic!("expected the summary"),
    }
    let (run, req) = run.on_text(Ok("요약".to_string()));
    assert!(matches!(run.stage, Stage::Finished));
    match req {
        Request::Save { summary, answer } => {
            assert_eq!(summary, "요약");
            assert_eq!(answer, "ANSWER");
        }
        _ => panic!("expected saving"),
    }
}

#[test]
fn a_single_run_with_a_failed_summary() {
    let long = "가".repeat(61);
    let (run, req) = Run::single(&long, "M");
    match &req {
        Request::Stream(p) => assert_eq!(*p, format!("M{}", long)),
        _ => panic!("expected a stream"),
    }
    let (run, req) = run.on_text(Ok("A".to_string()));
    match &req {
        Request::Generate(p) => assert_eq!(*p, single_summary_prompt(&long, "A")),
        _ => panic!("expected the summary"),
    }
    let (_run, req) = run.on_text(Err("down".to_string()));
    match req {
        Request::Save { summary, answer } => {
            assert_eq!(summary, "가".repeat(60));
            assert_eq!(answer, "A");
        }
        _ => panic!("expected saving"),
    }
}

#[test]
fn failures_end_a_run() {
    let (run, _) = Run::harness("Q", "");
    let (run, req) = run.on_text(Err("no server".to_string()));
    assert!(matches!(run.stage, Stage::Finished));
    assert!(matches!(req, Request::Fail(ref e) if e == "no server"));

    let (run, _) = Run::harness("Q", "");
    let (run, _) = run.on_text(Ok("a\nb".to_string()));
    let (_, req) = run.on_work(vec![Ok("x".to_string()), Err("bad".to_string())]);
    assert!(matches!(req, Request::Fail(ref e) if e == "bad"));
}

fn step(p: &local_ai_harness::harness::Progress) -> (String, String, String) {
    match p {
        local_ai_harness::harness::Progress::Step { phase, status, detail } => {
            (phase.clone(), status.clone(), detail.clone())
        }
        _ => panic!("expected a step"),
    }
}

#[test]
fn progress_notes_of_a_harness_run() {
    let (run, _) = Run::harness("Q", "");
    let open = run.opening_progress();
    assert_eq!(open.len(), 1);
    assert_eq!(step(&open[0]), ("decompose".into(), "start".into(), "요청을 하위 작업으로 분해 중...".into()));
    let before = run.stage;
    let (run, _) = run.on_text(Ok("1. a\n2. b".to_string()));
    let notes = run.progress_since(before);
    assert_eq!(notes.len(), 3);
    assert_eq!(step(&notes[0]), ("decompose".into(), "done".into(), "2개 하위 작업으로 분해".into()));
    match &notes[1] {
        local_ai_harness::harness::Progress::Subtasks(t) => assert_eq!(*t, vec!["a", "b"]),
        _ => panic!("expected the sub-tasks"),
    }
    assert_eq!(step(&notes[2]), ("work".into(), "start".into(), "2개 하위 작업 병렬 수행 중...".into()));
    let before = run.stage;
    let (run, _) = run.on_work(vec![Ok("x".to_string()), Ok("y".to_string())]);
    let notes = run.progress_since(before);
    assert_eq!(step(&notes[0]), ("work".into(), "done".into(), "".into()));
    assert_eq!(step(&notes[1]), ("review".into(), "start".into(), "결과 교차 검증 중...".into()));
    let before = run.stage;
    let (run, _) = run.on_text(Ok("ok".to_string()));
    let notes = run.progress_since(before);
    assert_eq!(step(&notes[0]), ("review".into(), "done".into(), "ok".into()));
    assert_eq!(step(&notes[1]), ("synthesize".into(), "start".into(), "최종 결과물 종합 중...".into()));
    let before = run.stage;
    let (run, _) = run.on_text(Ok("A".to_string()));
    let notes = run.progress_since(before);
    assert_eq!(notes.len(), 1);
    assert_eq!(step(&notes[0]), ("synthesize".into(), "done".into(), "완료".into()));
    let before = run.stage;
    let (run, _) = run.on_text(Err("x".to_string()));
    assert!(run.progress_since(before).is_empty());
}

#[test]
fn a_single_run_shows_no_steps() {
    let (run, _) = Run::single("Q", "");
    assert!(run.opening_progress().is_empty());
    let before = run.stage;
    let (run, _) = run.on_text(Ok("A".to_string()));
    assert!(run.progress_since(before).is_empty());
}

#[test]
fn failed_steps_show_no_notes() {
    let (run, _) = Run::harness("Q", "");
    let (run, _) = run.on_text(Ok("a\nb".to_string()));
    let before = run.stage;
    let (run, _) = run.on_work(vec![Ok("x".to_string()), Err("bad".to_string())]);
    assert!(run.progress_since(before).is_empty());
}
