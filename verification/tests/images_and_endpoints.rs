use local_ai_harness::endpoints::{a1111_url, comfy_url, delete_outcome, ollama_url};
use local_ai_harness::images::{
    a1111_request, decode_error_message, first_image, finish_image, image_payloads,
    next_backend_step, workflow, Backend, BackendStep, Base64Error, ComfyJob, ComfyRequest,
    COMFY_MAX_POLLS,
};

#[test]
fn service_addresses() {
    assert_eq!(ollama_url("/api/tags"), "http://localhost:11434/api/tags");
    assert_eq!(a1111_url("/sdapi/v1/txt2img"), "http://127.0.0.1:7860/sdapi/v1/txt2img");
    assert_eq!(comfy_url("/system_stats"), "http://127.0.0.1:8188/system_stats");
}

#[test]
fn delete_outcomes() {
    assert_eq!(delete_outcome(true, "200 OK"), Ok(()));
    assert_eq!(delete_outcome(false, "404 Not Found"), Err("삭제 실패: HTTP 404 Not Found".to_string()));
}

#[test]
fn backend_is_found_in_order() {
    assert!(matches!(next_backend_step(None, None), BackendStep::ProbeA1111));
    assert!(matches!(next_backend_step(Some(true), None), BackendStep::Use(Backend::Automatic1111)));
    assert!(matches!(next_backend_step(Some(false), None), BackendStep::ProbeComfy));
    assert!(matches!(next_backend_step(Some(false), Some(true)), BackendStep::Use(Backend::ComfyUI)));
    match next_backend_step(Some(false), Some(false)) {
        BackendStep::NotFound(m) => assert_eq!(
            m,
            "로컬 이미지 생성 엔진을 찾지 못했습니다. Automatic1111(:7860) 또는 ComfyUI(:8188)를 실행하세요."
        ),
        _ => panic!("expected no backend"),
    }
}

#[test]
fn first_image_payload() {
    assert_eq!(first_image(&vec![]), Err("이미지를 받지 못했습니다.".to_string()));
    let imgs = vec!["data:image/png;base64,aGk=".to_string(), "x".to_string()];
    assert_eq!(first_image(&imgs), Ok("aGk=".to_string()));
    assert_eq!(image_payloads(&imgs), vec!["aGk=", "x"]);
}

#[test]
fn finishing_an_image() {
    let f = finish_image("aGVsbG8=".to_string(), Backend::ComfyUI, 1700000000123).unwrap();
    assert_eq!(f.bytes, b"hello".to_vec());
    assert_eq!(f.b64, "aGVsbG8=");
    assert_eq!(f.file_name, "img_1700000000123.png");
    assert_eq!(f.backend, "ComfyUI");
    assert_eq!(
        finish_image("not base64!".to_string(), Backend::Automatic1111, 1).err(),
        Some("Invalid symbol 32, offset 3.".to_string())
    );
    assert_eq!(
        finish_image("aGVsbG8".to_string(), Backend::Automatic1111, 1).err(),
        Some("Invalid padding".to_string())
    );
    assert_eq!(
        finish_image("a".to_string(), Backend::Automatic1111, 1).err(),
        Some("Invalid input length: 1".to_string())
    );
    assert_eq!(
        finish_image("aGVsbG9=".to_string(), Backend::Automatic1111, 1).err(),
        Some("Invalid last symbol 57, offset 6.".to_string())
    );
}

#[test]
fn decode_messages() {
    assert_eq!(decode_error_message(&Base64Error::InvalidByte(7, 33)), "Invalid symbol 33, offset 7.");
    assert_eq!(decode_error_message(&Base64Error::InvalidLength(5)), "Invalid input length: 5");
    assert_eq!(
        decode_error_message(&Base64Error::InvalidLastSymbol(2, 66)),
        "Invalid last symbol 66, offset 2."
    );
    assert_eq!(decode_error_message(&Base64Error::InvalidPadding), "Invalid padding");
}

#[test]
fn request_settings() {
    let r = a1111_request("cat");
    assert_eq!((r.prompt.as_str(), r.steps, r.width, r.height, r.cfg_scale), ("cat", 25, 768, 768, 7));
    let w = workflow("cat", "sd15", 42);
    assert_eq!(w.seed, 42);
    assert_eq!(w.steps, 20);
    assert_eq!(w.sampler_name, "euler");
    assert_eq!(w.scheduler, "normal");
    assert_eq!(w.checkpoint, "sd15");
    assert_eq!((w.width, w.height, w.batch_size), (768, 768, 1));
    assert_eq!(w.prompt, "cat");
    assert_eq!(w.negative, "");
    assert_eq!(w.filename_prefix, "harness");
    assert_eq!(w.client_id, "harness");
}

const CHECKPOINTS: &str =
    r#"{"CheckpointLoaderSimple":{"input":{"required":{"ckpt_name":[["sd15.safetensors","xl.safetensors"],{}]}}}}"#;

#[test]
fn a_comfy_job_that_succeeds() {
    let (job, req) = ComfyJob::start("a cat");
    assert!(matches!(req, ComfyRequest::ReadCheckpoints(ref u)
        if u == "http://127.0.0.1:8188/object_info/CheckpointLoaderSimple"));
    let (job, req) = job.on_checkpoint(Ok(CHECKPOINTS.to_string()), 99);
    match &req {
        ComfyRequest::Submit { url, workflow } => {
            assert_eq!(url, "http://127.0.0.1:8188/prompt");
            assert_eq!(workflow.checkpoint, "sd15.safetensors");
            assert_eq!(workflow.prompt, "a cat");
            assert_eq!(workflow.seed, 99);
        }
        _ => panic!("expected submission"),
    }
    let (job, req) = job.on_submitted(Ok(r#"{"prompt_id":"abc","number":1}"#.to_string()));
    assert!(matches!(req, ComfyRequest::Poll(ref u) if u == "http://127.0.0.1:8188/history/abc"));
    let (job, req) = job.on_history(Ok("{}".to_string()));
    assert!(matches!(req, ComfyRequest::Poll(_)));
    assert_eq!(job.polls, 2);
    let hist = r#"{"abc":{"outputs":{"9":{"images":[{"filename":"harness_0001.png","subfolder":"","type":"output"}]}}}}"#;
    let (job, req) = job.on_history(Ok(hist.to_string()));
    assert!(matches!(req, ComfyRequest::Fetch(ref u)
        if u == "http://127.0.0.1:8188/view?filename=harness_0001.png&subfolder=&type=output"));
    let (_job, req) = job.on_image(Ok(b"PNG!".to_vec()));
    match req {
        ComfyRequest::Done(Ok(b64)) => {
            assert_eq!(b64, "UE5HIQ==");
            let f = finish_image(b64, Backend::ComfyUI, 7).unwrap();
            assert_eq!(f.bytes, b"PNG!".to_vec());
        }
        _ => panic!("expected the image"),
    }
}

#[test]
fn a_comfy_image_in_a_subfolder() {
    let (job, _) = ComfyJob::start("p");
    let (job, _) = job.on_checkpoint(Ok(CHECKPOINTS.to_string()), 1);
    let (job, _) = job.on_submitted(Ok(r#"{"prompt_id":"q"}"#.to_string()));
    let hist = r#"{"q":{"outputs":{"9":{"images":[{"filename":"f.png","subfolder":"sub"}]}}}}"#;
    let (_, req) = job.on_history(Ok(hist.to_string()));
    assert!(matches!(req, ComfyRequest::Fetch(ref u)
        if u == "http://127.0.0.1:8188/view?filename=f.png&subfolder=sub&type=output"));
}

#[test]
fn a_comfy_job_that_times_out() {
    let (job, _) = ComfyJob::start("p");
    let (job, _) = job.on_checkpoint(Ok(CHECKPOINTS.to_string()), 1);
    let (mut job, mut req) = job.on_submitted(Ok(r#"{"prompt_id":"id"}"#.to_string()));
    let mut polls = 1;
    loop {
        match req {
            ComfyRequest::Poll(_) => {
                let next = job.on_history(Ok(r#"{"id":{"outputs":{}}}"#.to_string()));
                job = next.0;
                req = next.1;
                if matches!(req, ComfyRequest::Poll(_)) {
                    polls += 1;
                }
            }
            ComfyRequest::Done(Err(m)) => {
                assert_eq!(m, "ComfyUI 생성이 시간 초과되었습니다.");
                break;
            }
            _ => panic!("unexpected request"),
        }
    }
    assert_eq!(polls, COMFY_MAX_POLLS);
}

#[test]
fn comfy_errors() {
    let (job, _) = ComfyJob::start("p");
    let (_, req) = job.on_checkpoint(Ok(r#"{"CheckpointLoaderSimple":{"input":{"required":{"ckpt_name":[[],{}]}}}}"#.to_string()), 1);
    assert!(matches!(req, ComfyRequest::Done(Err(ref m))
        if m == "ComfyUI에 SD 체크포인트(모델)가 없습니다. 모델을 먼저 넣어주세요."));
    let (job, _) = ComfyJob::start("p");
    let (job, _) = job.on_checkpoint(Ok(CHECKPOINTS.to_string()), 1);
    let (_, req) = job.on_submitted(Ok(r#"{"error":"bad"}"#.to_string()));
    assert!(matches!(req, ComfyRequest::Done(Err(ref m)) if m == "ComfyUI가 작업을 받지 못했습니다."));
    let (job, _) = ComfyJob::start("p");
    let (_, req) = job.on_checkpoint(Err("refused".to_string()), 1);
    assert!(matches!(req, ComfyRequest::Done(Err(ref m)) if m == "refused"));
}
