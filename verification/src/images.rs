//! Image generation through a local Stable Diffusion server (Automatic1111 or
//! ComfyUI, whichever answers first) and images sent to a vision model.
use vstd::prelude::*;
use base64::engine::general_purpose::STANDARD;
use base64::Engine;
use crate::endpoints::{comfy_base, comfy_url};
use crate::stream::{json_string, json_string_at, path_view, JsonStep, JsonStepView};
use crate::text::{after_comma, after_last_comma, decimal, push_decimal};

verus! {

/// The base64 text (standard alphabet, padded) that `base64`'s `STANDARD` engine
/// makes of `bytes`.
pub uninterp spec fn base64_encode(bytes: Seq<u8>) -> Seq<char>;

/// Why `base64`'s decoder refused a text: its `DecodeError`, variant for variant.
pub enum Base64Error {
    /// A symbol outside the alphabet (or misplaced padding) at this offset.
    InvalidByte(usize, u8),
    /// A length that no canonical encoding has.
    InvalidLength(usize),
    /// A last symbol whose unused bits are not zero, at this offset.
    InvalidLastSymbol(usize, u8),
    /// Padding that is not canonical.
    InvalidPadding,
}

/// What `base64`'s `STANDARD` engine makes of `text`: the bytes it encodes, or
/// the error that decoding stops at.
pub uninterp spec fn base64_decode(text: Seq<char>) -> Result<Seq<u8>, Base64Error>;

/// Whether `text` decodes to `bytes`.
pub open spec fn decodes_to(text: Seq<char>, bytes: Seq<u8>) -> bool {
    base64_decode(text) == Ok::<Seq<u8>, Base64Error>(bytes)
}

/// Whether decoding `text` stops at the error `e`.
pub open spec fn decode_fails_with(text: Seq<char>, e: Base64Error) -> bool {
    base64_decode(text) == Err::<Seq<u8>, Base64Error>(e)
}

/// `STANDARD.encode`: base64 with padding, four characters for every three bytes
/// or part of them; the standard engine decodes it back to `bytes`.
#[verifier::external_body]
fn encode_base64(bytes: &[u8]) -> (r: String)
    requires
        bytes@.len() <= usize::MAX / 2,
    ensures
        r@ == base64_encode(bytes@),
        r@.len() == 4 * ((bytes@.len() + 2) / 3),
        decodes_to(r@, bytes@),
{
    STANDARD.encode(bytes)
}

/// `STANDARD.decode`: the bytes that `text` encodes, or the decoding error,
/// variant for variant.
#[verifier::external_body]
fn decode_base64(text: &str) -> (r: Result<Vec<u8>, Base64Error>)
    ensures
        r is Ok <==> base64_decode(text@) is Ok,
        match r {
            Ok(b) => decodes_to(text@, b@),
            Err(e) => decode_fails_with(text@, e),
        },
{
    match STANDARD.decode(text) {
        Ok(b) => Ok(b),
        Err(base64::DecodeError::InvalidByte(i, b)) => Err(Base64Error::InvalidByte(i, b)),
        Err(base64::DecodeError::InvalidLength(n)) => Err(Base64Error::InvalidLength(n)),
        Err(base64::DecodeError::InvalidLastSymbol(i, b)) => Err(Base64Error::InvalidLastSymbol(i, b)),
        Err(base64::DecodeError::InvalidPadding) => Err(Base64Error::InvalidPadding),
    }
}

/// The message of a decoding error, as `DecodeError`'s `Display` writes it.
pub open spec fn decode_message(e: Base64Error) -> Seq<char> {
    match e {
        Base64Error::InvalidByte(i, b) => "Invalid symbol "@ + decimal(b as nat) + ", offset "@
            + decimal(i as nat) + "."@,
        Base64Error::InvalidLength(n) => "Invalid input length: "@ + decimal(n as nat),
        Base64Error::InvalidLastSymbol(i, b) => "Invalid last symbol "@ + decimal(b as nat)
            + ", offset "@ + decimal(i as nat) + "."@,
        Base64Error::InvalidPadding => "Invalid padding"@,
    }
}

/// The message of a decoding error.
pub fn decode_error_message(e: &Base64Error) -> (r: String)
    ensures
        r@ == decode_message(*e),
{
    match e {
        Base64Error::InvalidByte(i, b) => {
            let mut r = "Invalid symbol ".to_string();
            push_decimal(&mut r, *b as u64);
            r.append(", offset ");
            push_decimal(&mut r, *i as u64);
            r.append(".");
            r
        },
        Base64Error::InvalidLength(n) => {
            let mut r = "Invalid input length: ".to_string();
            push_decimal(&mut r, *n as u64);
            r
        },
        Base64Error::InvalidLastSymbol(i, b) => {
            let mut r = "Invalid last symbol ".to_string();
            push_decimal(&mut r, *b as u64);
            r.append(", offset ");
            push_decimal(&mut r, *i as u64);
            r.append(".");
            r
        },
        Base64Error::InvalidPadding => "Invalid padding".to_string(),
    }
}

/// The image servers that are tried, in this order.
pub enum Backend {
    Automatic1111,
    ComfyUI,
}

/// The name under which a server's result is reported.
pub fn backend_name(b: &Backend) -> (r: &'static str)
    ensures
        r@ == match b {
            Backend::Automatic1111 => "Automatic1111"@,
            Backend::ComfyUI => "ComfyUI"@,
        },
{
    match b {
        Backend::Automatic1111 => "Automatic1111",
        Backend::ComfyUI => "ComfyUI",
    }
}

/// What to do next in finding a server.
pub enum BackendStep {
    /// See whether Automatic1111 answers.
    ProbeA1111,
    /// See whether ComfyUI answers.
    ProbeComfy,
    /// Generate with this server.
    Use(Backend),
    /// Neither answers: give up with this message.
    NotFound(String),
}

/// The message given when no image server answers.
pub open spec fn no_backend_message() -> Seq<char> {
    "로컬 이미지 생성 엔진을 찾지 못했습니다. Automatic1111(:7860) 또는 ComfyUI(:8188)를 실행하세요."@
}

/// The next step in finding a server, given what the probes so far found
/// (`None` where a server has not been probed). Automatic1111 is probed first
/// and used if it answers; ComfyUI is probed only if it does not.
pub fn next_backend_step(a1111_up: Option<bool>, comfy_up: Option<bool>) -> (r: BackendStep)
    ensures
        match (a1111_up, comfy_up) {
            (None, _) => r is ProbeA1111,
            (Some(true), _) => r matches BackendStep::Use(b) && b is Automatic1111,
            (Some(false), None) => r is ProbeComfy,
            (Some(false), Some(true)) => r matches BackendStep::Use(b) && b is ComfyUI,
            (Some(false), Some(false)) => r matches BackendStep::NotFound(m) && m@
                == no_backend_message(),
        },
{
    match (a1111_up, comfy_up) {
        (None, _) => BackendStep::ProbeA1111,
        (Some(true), _) => BackendStep::Use(Backend::Automatic1111),
        (Some(false), None) => BackendStep::ProbeComfy,
        (Some(false), Some(true)) => BackendStep::Use(Backend::ComfyUI),
        (Some(false), Some(false)) => BackendStep::NotFound(
            "로컬 이미지 생성 엔진을 찾지 못했습니다. Automatic1111(:7860) 또는 ComfyUI(:8188)를 실행하세요.".to_string(),
        ),
    }
}

/// The base64 payload of the first image that Automatic1111 returned: what follows
/// the last comma (a `data:` prefix is cut off); an error where it returned none.
pub fn first_image(images: &Vec<String>) -> (r: Result<String, String>)
    ensures
        images@.len() == 0 ==> (r matches Err(m) && m@ == "이미지를 받지 못했습니다."@),
        images@.len() > 0 ==> (r matches Ok(b) && b@ == after_last_comma(images@[0]@)),
{
    if images.len() == 0 {
        Err("이미지를 받지 못했습니다.".to_string())
    } else {
        Ok(after_comma(images[0].as_str()))
    }
}

/// The base64 payloads of images sent to a vision model: of each, what follows
/// its last comma.
pub fn image_payloads(images: &Vec<String>) -> (r: Vec<String>)
    ensures
        r@.len() == images@.len(),
        forall|i: int| 0 <= i < images@.len() ==> (#[trigger] r@[i])@ == after_last_comma(images@[i]@),
{
    let mut r: Vec<String> = Vec::new();
    let mut i: usize = 0;
    while i < images.len()
        invariant
            i <= images@.len(),
            r@.len() == i,
            forall|k: int| 0 <= k < i ==> (#[trigger] r@[k])@ == after_last_comma(images@[k]@),
        decreases images@.len() - i,
    {
        r.push(after_comma(images[i].as_str()));
        i = i + 1;
    }
    r
}

/// A generated image ready to be kept: its base64 text, its bytes, the name of
/// the file it is saved under, and the server that made it.
pub struct ImageFile {
    pub b64: String,
    pub bytes: Vec<u8>,
    pub file_name: String,
    pub backend: &'static str,
}

/// The name of the file for an image made at `now` (milliseconds since the epoch).
pub open spec fn image_file_name(now: u64) -> Seq<char> {
    "img_"@ + decimal(now as nat) + ".png"@
}

/// The image that `backend` returned as the base64 text `b64`, decoded, with the
/// file name for the time `now`; the decoder's message where `b64` is not
/// canonical base64.
pub fn finish_image(b64: String, backend: Backend, now: u64) -> (r: Result<ImageFile, String>)
    ensures
        match base64_decode(b64@) {
            Err(e) => r matches Err(m) && m@ == decode_message(e),
            Ok(bytes) => r matches Ok(f) && {
                &&& f.b64@ == b64@
                &&& f.bytes@ == bytes
                &&& f.file_name@ == image_file_name(now)
                &&& f.backend@ == match backend {
                    Backend::Automatic1111 => "Automatic1111"@,
                    Backend::ComfyUI => "ComfyUI"@,
                }
            },
        },
{
    match decode_base64(b64.as_str()) {
        Err(e) => Err(decode_error_message(&e)),
        Ok(bytes) => {
            let mut file_name = "img_".to_string();
            push_decimal(&mut file_name, now);
            file_name.append(".png");
            Ok(ImageFile { b64, bytes, file_name, backend: backend_name(&backend) })
        },
    }
}

/// The settings of an Automatic1111 text-to-image request (its CFG scale is the
/// whole number 7).
pub struct Txt2ImgRequest {
    pub prompt: String,
    pub steps: u32,
    pub width: u32,
    pub height: u32,
    pub cfg_scale: u32,
}

/// The Automatic1111 request for `prompt`: 25 steps, 768 by 768, CFG scale 7.
pub fn a1111_request(prompt: &str) -> (r: Txt2ImgRequest)
    ensures
        r.prompt@ == prompt@,
        r.steps == 25,
        r.width == 768,
        r.height == 768,
        r.cfg_scale == 7,
{
    Txt2ImgRequest { prompt: prompt.to_string(), steps: 25, width: 768, height: 768, cfg_scale: 7 }
}

/// The text-to-image workflow submitted to ComfyUI: a checkpoint loader, a positive
/// and a negative text encoding, an empty latent image, a sampler, a decoder and
/// an image saver. (The sampler's CFG of 7.0 and denoise of 1.0 are added where
/// the workflow is written out as JSON.)
pub struct Workflow {
    pub seed: u64,
    pub steps: u32,
    pub sampler_name: String,
    pub scheduler: String,
    pub checkpoint: String,
    pub width: u32,
    pub height: u32,
    pub batch_size: u32,
    pub prompt: String,
    pub negative: String,
    pub filename_prefix: String,
    pub client_id: String,
}

/// Whether `w` is the workflow for `prompt` with `checkpoint` and `seed`: 20 steps
/// of the `euler` sampler with the `normal` scheduler, one 768 by 768 image, an
/// empty negative text, saved under the prefix `harness` for the client `harness`.
pub open spec fn is_workflow(w: Workflow, prompt: Seq<char>, checkpoint: Seq<char>, seed: u64) -> bool {
    &&& w.seed == seed
    &&& w.steps == 20
    &&& w.sampler_name@ == "euler"@
    &&& w.scheduler@ == "normal"@
    &&& w.checkpoint@ == checkpoint
    &&& w.width == 768
    &&& w.height == 768
    &&& w.batch_size == 1
    &&& w.prompt@ == prompt
    &&& w.negative@ == Seq::<char>::empty()
    &&& w.filename_prefix@ == "harness"@
    &&& w.client_id@ == "harness"@
}

/// The workflow for `prompt` with `checkpoint` and `seed`.
pub fn workflow(prompt: &str, checkpoint: &str, seed: u64) -> (w: Workflow)
    ensures
        is_workflow(w, prompt@, checkpoint@, seed),
{
    Workflow {
        seed,
        steps: 20,
        sampler_name: "euler".to_string(),
        scheduler: "normal".to_string(),
        checkpoint: checkpoint.to_string(),
        width: 768,
        height: 768,
        batch_size: 1,
        prompt: prompt.to_string(),
        negative: String::new(),
        filename_prefix: "harness".to_string(),
        client_id: "harness".to_string(),
    }
}

/// How many times ComfyUI's history is read, a second apart, before giving up.
pub const COMFY_MAX_POLLS: u32 = 180;

/// The step a ComfyUI job waits in.
pub enum ComfyStage {
    /// Waiting for the list of checkpoints.
    Checkpoint,
    /// Waiting for the id of the submitted workflow.
    Submit,
    /// Waiting for the history of the workflow.
    Poll,
    /// Waiting for the bytes of the image.
    Fetch,
    /// The job is over.
    Finished,
}

/// The outside work that a ComfyUI job asks for next. Replies come back as JSON
/// text.
pub enum ComfyRequest {
    /// Read the checkpoint list from this address.
    ReadCheckpoints(String),
    /// Submit this workflow to this address.
    Submit { url: String, workflow: Workflow },
    /// Wait a second, then read the workflow's history at this address.
    Poll(String),
    /// Read the image's bytes from this address.
    Fetch(String),
    /// The job is over: the image in base64, or the error.
    Done(Result<String, String>),
}

/// A ComfyUI job: the prompt it draws, where it stands, the id of its workflow
/// and how many times its history has been read.
pub struct ComfyJob {
    pub prompt: String,
    pub stage: ComfyStage,
    pub prompt_id: String,
    pub polls: u32,
}

/// The address at which ComfyUI lists its checkpoints.
pub open spec fn checkpoints_url() -> Seq<char> {
    comfy_base() + "/object_info/CheckpointLoaderSimple"@
}

/// The address to which ComfyUI workflows are submitted.
pub open spec fn submit_url() -> Seq<char> {
    comfy_base() + "/prompt"@
}

/// The address of the history of workflow `id`.
pub open spec fn history_url(id: Seq<char>) -> Seq<char> {
    comfy_base() + "/history/"@ + id
}

/// The address of output image `file` in `subfolder`.
pub open spec fn view_url(file: Seq<char>, subfolder: Seq<char>) -> Seq<char> {
    comfy_base() + "/view?filename="@ + file + "&subfolder="@ + subfolder + "&type=output"@
}

/// Where the checkpoint list holds the name of the first checkpoint.
pub open spec fn checkpoint_path() -> Seq<JsonStepView> {
    seq![
        JsonStepView::Key("CheckpointLoaderSimple"@),
        JsonStepView::Key("input"@),
        JsonStepView::Key("required"@),
        JsonStepView::Key("ckpt_name"@),
        JsonStepView::Index(0),
        JsonStepView::Index(0),
    ]
}

/// Where the reply to a submission holds the workflow's id.
pub open spec fn prompt_id_path() -> Seq<JsonStepView> {
    seq![JsonStepView::Key("prompt_id"@)]
}

/// Where the history of workflow `id` holds `field` (`filename` or `subfolder`)
/// of the first image that the saver (node 9) wrote.
pub open spec fn image_path(id: Seq<char>, field: Seq<char>) -> Seq<JsonStepView> {
    seq![
        JsonStepView::Key(id),
        JsonStepView::Key("outputs"@),
        JsonStepView::Key("9"@),
        JsonStepView::Key("images"@),
        JsonStepView::Index(0),
        JsonStepView::Key(field),
    ]
}

/// The message given when ComfyUI has no checkpoint.
pub open spec fn no_checkpoint_message() -> Seq<char> {
    "ComfyUI에 SD 체크포인트(모델)가 없습니다. 모델을 먼저 넣어주세요."@
}

/// The message given when ComfyUI does not queue the workflow.
pub open spec fn not_queued_message() -> Seq<char> {
    "ComfyUI가 작업을 받지 못했습니다."@
}

/// The message given when no image appears in time.
pub open spec fn timeout_message() -> Seq<char> {
    "ComfyUI 생성이 시간 초과되었습니다."@
}

fn history_address(id: &str) -> (r: String)
    ensures
        r@ == history_url(id@),
{
    let mut r = comfy_url("/history/");
    r.append(id);
    proof {
        assert(comfy_base() + "/history/"@ + id@ == history_url(id@));
    }
    r
}

fn key(k: &str) -> (s: JsonStep)
    ensures
        s@ == JsonStepView::Key(k@),
{
    JsonStep::Key(k.to_string())
}

fn checkpoint_path_steps() -> (p: Vec<JsonStep>)
    ensures
        path_view(p@) == checkpoint_path(),
{
    let mut p: Vec<JsonStep> = Vec::new();
    p.push(key("CheckpointLoaderSimple"));
    p.push(key("input"));
    p.push(key("required"));
    p.push(key("ckpt_name"));
    p.push(JsonStep::Index(0));
    p.push(JsonStep::Index(0));
    assert(path_view(p@) =~= checkpoint_path());
    p
}

fn image_path_steps(id: &str, field: &str) -> (p: Vec<JsonStep>)
    ensures
        path_view(p@) == image_path(id@, field@),
{
    let mut p: Vec<JsonStep> = Vec::new();
    p.push(key(id));
    p.push(key("outputs"));
    p.push(key("9"));
    p.push(key("images"));
    p.push(JsonStep::Index(0));
    p.push(key(field));
    assert(path_view(p@) =~= image_path(id@, field@));
    p
}

impl ComfyJob {
    /// A new job for `prompt`: it starts by reading the checkpoints.
    pub fn start(prompt: &str) -> (r: (ComfyJob, ComfyRequest))
        ensures
            r.0.prompt@ == prompt@,
            r.0.stage is Checkpoint,
            r.0.polls == 0,
            r.1 matches ComfyRequest::ReadCheckpoints(u) && u@ == checkpoints_url(),
    {
        let job = ComfyJob {
            prompt: prompt.to_string(),
            stage: ComfyStage::Checkpoint,
            prompt_id: String::new(),
            polls: 0,
        };
        (job, ComfyRequest::ReadCheckpoints(comfy_url("/object_info/CheckpointLoaderSimple")))
    }

    /// The next step once the checkpoint list (JSON text) has been read: submit
    /// the workflow with the first checkpoint and the seed `seed`.
    pub fn on_checkpoint(self, outcome: Result<String, String>, seed: u64) -> (r: (ComfyJob, ComfyRequest))
        requires
            self.stage is Checkpoint,
        ensures
            r.0.polls == 0,
            r.0.prompt == self.prompt,
            match outcome {
                Err(e) => {
                    &&& r.0.stage is Finished
                    &&& r.1 matches ComfyRequest::Done(Err(m)) && m@ == e@
                },
                Ok(text) => match json_string_at(text@, checkpoint_path()) {
                    None => {
                        &&& r.0.stage is Finished
                        &&& r.1 matches ComfyRequest::Done(Err(m)) && m@ == no_checkpoint_message()
                    },
                    Some(c) => {
                        &&& r.0.stage is Submit
                        &&& r.1 matches ComfyRequest::Submit { url, workflow } && url@ == submit_url()
                            && is_workflow(workflow, self.prompt@, c, seed)
                    },
                },
            },
    {
        let mut job = self;
        job.polls = 0;
        match outcome {
            Err(e) => {
                job.stage = ComfyStage::Finished;
                (job, ComfyRequest::Done(Err(e)))
            },
            Ok(text) => match json_string(text.as_str(), &checkpoint_path_steps()) {
                None => {
                    job.stage = ComfyStage::Finished;
                    let m = "ComfyUI에 SD 체크포인트(모델)가 없습니다. 모델을 먼저 넣어주세요.".to_string();
                    (job, ComfyRequest::Done(Err(m)))
                },
                Some(c) => {
                    job.stage = ComfyStage::Submit;
                    let w = workflow(job.prompt.as_str(), c.as_str(), seed);
                    (job, ComfyRequest::Submit { url: comfy_url("/prompt"), workflow: w })
                },
            },
        }
    }

    /// The next step once ComfyUI has answered the submission (JSON text): the
    /// first reading of the workflow's history.
    pub fn on_submitted(self, outcome: Result<String, String>) -> (r: (ComfyJob, ComfyRequest))
        requires
            self.stage is Submit,
        ensures
            r.0.prompt == self.prompt,
            match outcome {
                Err(e) => {
                    &&& r.0.stage is Finished
                    &&& r.1 matches ComfyRequest::Done(Err(m)) && m@ == e@
                },
                Ok(text) => match json_string_at(text@, prompt_id_path()) {
                    None => {
                        &&& r.0.stage is Finished
                        &&& r.1 matches ComfyRequest::Done(Err(m)) && m@ == not_queued_message()
                    },
                    Some(id) => {
                        &&& r.0.stage is Poll
                        &&& r.0.prompt_id@ == id
                        &&& r.0.polls == 1
                        &&& r.1 matches ComfyRequest::Poll(u) && u@ == history_url(id)
                    },
                },
            },
    {
        let mut job = self;
        match outcome {
            Err(e) => {
                job.stage = ComfyStage::Finished;
                (job, ComfyRequest::Done(Err(e)))
            },
            Ok(text) => {
                let mut path: Vec<JsonStep> = Vec::new();
                path.push(key("prompt_id"));
                assert(path_view(path@) =~= prompt_id_path());
                match json_string(text.as_str(), &path) {
                    None => {
                        job.stage = ComfyStage::Finished;
                        (job, ComfyRequest::Done(Err("ComfyUI가 작업을 받지 못했습니다.".to_string())))
                    },
                    Some(id) => {
                        let u = history_address(id.as_str());
                        job.prompt_id = id;
                        job.stage = ComfyStage::Poll;
                        job.polls = 1;
                        (job, ComfyRequest::Poll(u))
                    },
                }
            },
        }
    }

    /// The next step once the history (JSON text) has been read: fetch the first
    /// output image once it has a file name (with an empty subfolder where none
    /// is named); else read again, up to `COMFY_MAX_POLLS` readings in all, then
    /// give up.
    pub fn on_history(self, outcome: Result<String, String>) -> (r: (ComfyJob, ComfyRequest))
        requires
            self.stage is Poll,
            1 <= self.polls <= COMFY_MAX_POLLS,
        ensures
            r.0.prompt_id == self.prompt_id,
            r.0.prompt == self.prompt,
            match outcome {
                Err(e) => {
                    &&& r.0.stage is Finished
                    &&& r.1 matches ComfyRequest::Done(Err(m)) && m@ == e@
                },
                Ok(text) => match json_string_at(text@, image_path(self.prompt_id@, "filename"@)) {
                    Some(file) => {
                        &&& r.0.stage is Fetch
                        &&& r.1 matches ComfyRequest::Fetch(u) && u@ == view_url(
                            file,
                            match json_string_at(text@, image_path(self.prompt_id@, "subfolder"@)) {
                                Some(s) => s,
                                None => Seq::empty(),
                            },
                        )
                    },
                    None => if self.polls < COMFY_MAX_POLLS {
                        &&& r.0.stage is Poll
                        &&& r.0.polls == self.polls + 1
                        &&& r.1 matches ComfyRequest::Poll(u) && u@ == history_url(self.prompt_id@)
                    } else {
                        &&& r.0.stage is Finished
                        &&& r.1 matches ComfyRequest::Done(Err(m)) && m@ == timeout_message()
                    },
                },
            },
    {
        let mut job = self;
        match outcome {
            Err(e) => {
                job.stage = ComfyStage::Finished;
                (job, ComfyRequest::Done(Err(e)))
            },
            Ok(text) => {
                let file_path = image_path_steps(job.prompt_id.as_str(), "filename");
                match json_string(text.as_str(), &file_path) {
                    Some(file) => {
                        let sub_path = image_path_steps(job.prompt_id.as_str(), "subfolder");
                        let sub = json_string(text.as_str(), &sub_path);
                        let mut u = comfy_url("/view?filename=");
                        u.append(file.as_str());
                        u.append("&subfolder=");
                        match &sub {
                            Some(s) => u.append(s.as_str()),
                            None => {},
                        }
                        u.append("&type=output");
                        proof {
                            let sv = match sub {
                                Some(s) => s@,
                                None => Seq::<char>::empty(),
                            };
                            assert(u@ =~= view_url(file@, sv));
                        }
                        job.stage = ComfyStage::Fetch;
                        (job, ComfyRequest::Fetch(u))
                    },
                    None => {
                        if job.polls < COMFY_MAX_POLLS {
                            job.polls = job.polls + 1;
                            let u = history_address(job.prompt_id.as_str());
                            (job, ComfyRequest::Poll(u))
                        } else {
                            job.stage = ComfyStage::Finished;
                            (job, ComfyRequest::Done(Err("ComfyUI 생성이 시간 초과되었습니다.".to_string())))
                        }
                    },
                }
            },
        }
    }

    /// The end of the job once the image's bytes have been read: the image in
    /// base64, which decodes back to those bytes.
    pub fn on_image(self, outcome: Result<Vec<u8>, String>) -> (r: (ComfyJob, ComfyRequest))
        requires
            self.stage is Fetch,
            outcome matches Ok(b) ==> b@.len() <= usize::MAX / 2,
        ensures
            r.0.stage is Finished,
            match outcome {
                Err(e) => r.1 matches ComfyRequest::Done(Err(m)) && m@ == e@,
                Ok(bytes) => r.1 matches ComfyRequest::Done(Ok(t)) && t@ == base64_encode(bytes@)
                    && decodes_to(t@, bytes@),
            },
    {
        let mut job = self;
        job.stage = ComfyStage::Finished;
        match outcome {
            Err(e) => (job, ComfyRequest::Done(Err(e))),
            Ok(bytes) => (job, ComfyRequest::Done(Ok(encode_base64(bytes.as_slice())))),
        }
    }
}

} // verus!
