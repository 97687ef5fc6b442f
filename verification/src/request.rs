use vstd::prelude::*;

use crate::bytes::bytes_eq;
use vstd::string::StringSliceAdditionalSpecFns;

verus! {

/// The two operations the proxy translates.
#[derive(Clone, Copy, PartialEq, Eq, Structural)]
pub enum Operation {
    Generate,
    Edit,
}

/// The format in which generated images are returned.
#[derive(Clone, Copy, PartialEq, Eq, Structural)]
pub enum ResponseFormat {
    Url,
    B64Json,
}

/// Sampling methods of the backend schema. Free text that names none of them
/// is carried through as a custom method rather than rejected.
pub enum SamplingMethod {
    Euler,
    EulerA,
    Heun,
    Dpm2,
    DpmPlusPlus2sA,
    DpmPlusPlus2m,
    DpmPlusPlus2mv2,
    Ipndm,
    IpndmV,
    Lcm,
    Custom(String),
}

/// Denoiser sigma schedulers of the backend schema, with the same custom
/// fallback.
pub enum Scheduler {
    Discrete,
    Karras,
    Exponential,
    Ays,
    Gits,
    Custom(String),
}

/// Lowercases one ASCII byte.
pub open spec fn lower_byte(b: u8) -> u8 {
    if 0x41 <= b <= 0x5a {
        (b + 0x20) as u8
    } else {
        b
    }
}

/// ASCII-lowercases a byte sequence.
pub open spec fn ascii_lower(bs: Seq<u8>) -> Seq<u8> {
    bs.map(|i: int, b: u8| lower_byte(b))
}

impl SamplingMethod {
    /// The text the backend payload carries for this method.
    pub open spec fn spec_label(&self) -> Seq<char> {
        match self {
            SamplingMethod::Euler => "euler"@,
            SamplingMethod::EulerA => "euler_a"@,
            SamplingMethod::Heun => "heun"@,
            SamplingMethod::Dpm2 => "dpm2"@,
            SamplingMethod::DpmPlusPlus2sA => "dpm++2s_a"@,
            SamplingMethod::DpmPlusPlus2m => "dpm++2m"@,
            SamplingMethod::DpmPlusPlus2mv2 => "dpm++2mv2"@,
            SamplingMethod::Ipndm => "ipndm"@,
            SamplingMethod::IpndmV => "ipndm_v"@,
            SamplingMethod::Lcm => "lcm"@,
            SamplingMethod::Custom(s) => s@,
        }
    }

    pub fn label(&self) -> (r: &str)
        ensures
            r@ == self.spec_label(),
    {
        match self {
            SamplingMethod::Euler => "euler",
            SamplingMethod::EulerA => "euler_a",
            SamplingMethod::Heun => "heun",
            SamplingMethod::Dpm2 => "dpm2",
            SamplingMethod::DpmPlusPlus2sA => "dpm++2s_a",
            SamplingMethod::DpmPlusPlus2m => "dpm++2m",
            SamplingMethod::DpmPlusPlus2mv2 => "dpm++2mv2",
            SamplingMethod::Ipndm => "ipndm",
            SamplingMethod::IpndmV => "ipndm_v",
            SamplingMethod::Lcm => "lcm",
            SamplingMethod::Custom(s) => s.as_str(),
        }
    }
}

impl Scheduler {
    /// The text the backend payload carries for this scheduler.
    pub open spec fn spec_label(&self) -> Seq<char> {
        match self {
            Scheduler::Discrete => "discrete"@,
            Scheduler::Karras => "karras"@,
            Scheduler::Exponential => "exponential"@,
            Scheduler::Ays => "ays"@,
            Scheduler::Gits => "gits"@,
            Scheduler::Custom(s) => s@,
        }
    }

    pub fn label(&self) -> (r: &str)
        ensures
            r@ == self.spec_label(),
    {
        match self {
            Scheduler::Discrete => "discrete",
            Scheduler::Karras => "karras",
            Scheduler::Exponential => "exponential",
            Scheduler::Ays => "ays",
            Scheduler::Gits => "gits",
            Scheduler::Custom(s) => s.as_str(),
        }
    }
}

/// The label `sample_method` free text maps to: a known method name matched
/// case-insensitively, or the text itself.
pub open spec fn sampling_label_of(s: Seq<char>) -> Seq<char> {
    let low = ascii_lower(vstd::utf8::encode_utf8(s));
    if low == "euler".spec_bytes() {
        "euler"@
    } else if low == "euler_a".spec_bytes() {
        "euler_a"@
    } else if low == "heun".spec_bytes() {
        "heun"@
    } else if low == "dpm2".spec_bytes() {
        "dpm2"@
    } else if low == "dpm++2s_a".spec_bytes() {
        "dpm++2s_a"@
    } else if low == "dpm++2m".spec_bytes() {
        "dpm++2m"@
    } else if low == "dpm++2mv2".spec_bytes() {
        "dpm++2mv2"@
    } else if low == "ipndm".spec_bytes() {
        "ipndm"@
    } else if low == "ipndm_v".spec_bytes() {
        "ipndm_v"@
    } else if low == "lcm".spec_bytes() {
        "lcm"@
    } else {
        s
    }
}

/// The label `scheduler` free text maps to, with the same rule.
pub open spec fn scheduler_label_of(s: Seq<char>) -> Seq<char> {
    let low = ascii_lower(vstd::utf8::encode_utf8(s));
    if low == "discrete".spec_bytes() {
        "discrete"@
    } else if low == "karras".spec_bytes() {
        "karras"@
    } else if low == "exponential".spec_bytes() {
        "exponential"@
    } else if low == "ays".spec_bytes() {
        "ays"@
    } else if low == "gits".spec_bytes() {
        "gits"@
    } else {
        s
    }
}

/// Whether lowercased `s` names a known scheduler.
pub open spec fn is_known_scheduler(s: Seq<char>) -> bool {
    let low = ascii_lower(vstd::utf8::encode_utf8(s));
    low == "discrete".spec_bytes() || low == "karras".spec_bytes() || low
        == "exponential".spec_bytes() || low == "ays".spec_bytes() || low == "gits".spec_bytes()
}

/// ASCII-lowercases the bytes of a string.
pub fn lower_bytes(s: &str) -> (r: Vec<u8>)
    ensures
        r@ == ascii_lower(s.spec_bytes()),
{
    lower_bytes_of(s.as_bytes())
}

/// ASCII-lowercases a byte slice.
pub fn lower_bytes_of(bs: &[u8]) -> (r: Vec<u8>)
    ensures
        r@ == ascii_lower(bs@),
{
    let n: usize = bs.len();
    let mut out: Vec<u8> = Vec::new();
    let mut i: usize = 0;
    while i < n
        invariant
            0 <= i <= n,
            n == bs@.len(),
            out@.len() == i,
            forall|j: int| 0 <= j < i ==> out@[j] == lower_byte(bs@[j]),
        decreases n - i,
    {
        let b = bs[i];
        if 0x41 <= b && b <= 0x5a {
            out.push(b + 0x20);
        } else {
            out.push(b);
        }
        i += 1;
    }
    assert(out@ =~= ascii_lower(bs@));
    out
}

/// Maps free text onto a sampling method, matching known names
/// case-insensitively and keeping anything else as custom text.
pub fn parse_sampling(s: &String) -> (r: SamplingMethod)
    ensures
        r.spec_label() == sampling_label_of(s@),
{
    let low = lower_bytes(s.as_str());
    if bytes_eq(low.as_slice(), "euler".as_bytes()) {
        SamplingMethod::Euler
    } else if bytes_eq(low.as_slice(), "euler_a".as_bytes()) {
        SamplingMethod::EulerA
    } else if bytes_eq(low.as_slice(), "heun".as_bytes()) {
        SamplingMethod::Heun
    } else if bytes_eq(low.as_slice(), "dpm2".as_bytes()) {
        SamplingMethod::Dpm2
    } else if bytes_eq(low.as_slice(), "dpm++2s_a".as_bytes()) {
        SamplingMethod::DpmPlusPlus2sA
    } else if bytes_eq(low.as_slice(), "dpm++2m".as_bytes()) {
        SamplingMethod::DpmPlusPlus2m
    } else if bytes_eq(low.as_slice(), "dpm++2mv2".as_bytes()) {
        SamplingMethod::DpmPlusPlus2mv2
    } else if bytes_eq(low.as_slice(), "ipndm".as_bytes()) {
        SamplingMethod::Ipndm
    } else if bytes_eq(low.as_slice(), "ipndm_v".as_bytes()) {
        SamplingMethod::IpndmV
    } else if bytes_eq(low.as_slice(), "lcm".as_bytes()) {
        SamplingMethod::Lcm
    } else {
        SamplingMethod::Custom(s.clone())
    }
}

/// Maps free text onto a scheduler with the same rule.
pub fn parse_scheduler(s: &String) -> (r: Scheduler)
    ensures
        r.spec_label() == scheduler_label_of(s@),
        !(r is Custom) <==> is_known_scheduler(s@),
{
    let low = lower_bytes(s.as_str());
    if bytes_eq(low.as_slice(), "discrete".as_bytes()) {
        Scheduler::Discrete
    } else if bytes_eq(low.as_slice(), "karras".as_bytes()) {
        Scheduler::Karras
    } else if bytes_eq(low.as_slice(), "exponential".as_bytes()) {
        Scheduler::Exponential
    } else if bytes_eq(low.as_slice(), "ays".as_bytes()) {
        Scheduler::Ays
    } else if bytes_eq(low.as_slice(), "gits".as_bytes()) {
        Scheduler::Gits
    } else {
        Scheduler::Custom(s.clone())
    }
}

/// An uploaded file captured from a multipart part: its client-supplied name
/// and its raw bytes. Persisting it is the file store's business.
pub struct Upload {
    pub filename: String,
    pub data: Vec<u8>,
}

/// The mathematical image of an upload.
pub ghost struct UploadView {
    pub filename: Seq<char>,
    pub data: Seq<u8>,
}

impl View for Upload {
    type V = UploadView;

    open spec fn view(&self) -> UploadView {
        UploadView { filename: self.filename@, data: self.data@ }
    }
}

pub open spec fn opt_string_view(o: Option<String>) -> Option<Seq<char>> {
    match o {
        Some(s) => Some(s@),
        None => None,
    }
}

pub open spec fn opt_upload_view(o: Option<Upload>) -> Option<UploadView> {
    match o {
        Some(u) => Some(u@),
        None => None,
    }
}

/// Metadata of a persisted upload, sufficient to find the bytes again.
pub struct FileRef {
    pub id: String,
    pub byte_length: u64,
    pub created_at: u64,
    pub filename: String,
}

impl FileRef {
    /// The object type every stored file reports.
    pub fn object_kind() -> (r: &'static str)
        ensures
            r@ == "file"@,
    {
        "file"
    }

    /// The purpose every stored file reports.
    pub fn purpose() -> (r: &'static str)
        ensures
            r@ == "assistants"@,
    {
        "assistants"
    }
}

/// The canonical, wire-format-independent form of a generation or edit
/// request. Numeric fields that the backend takes as floating point are held
/// as their validated decimal text: the proxy never computes with them.
pub struct CanonicalRequest {
    pub prompt: Option<String>,
    pub negative_prompt: Option<String>,
    pub model: Option<String>,
    pub n: Option<u64>,
    pub response_format: Option<ResponseFormat>,
    pub user: Option<String>,
    pub cfg_scale: Option<String>,
    pub sample_method: Option<SamplingMethod>,
    pub steps: Option<u64>,
    pub height: Option<u64>,
    pub width: Option<u64>,
    pub control_strength: Option<String>,
    pub control_image: Option<Upload>,
    pub seed: Option<i32>,
    pub strength: Option<String>,
    pub scheduler: Option<Scheduler>,
    pub source_image: Option<Upload>,
    pub mask: Option<Upload>,
}

/// The mathematical image of a canonical request. Sampling method and
/// scheduler appear as the label the payload will carry.
pub ghost struct ReqView {
    pub prompt: Option<Seq<char>>,
    pub negative_prompt: Option<Seq<char>>,
    pub model: Option<Seq<char>>,
    pub n: Option<u64>,
    pub response_format: Option<ResponseFormat>,
    pub user: Option<Seq<char>>,
    pub cfg_scale: Option<Seq<char>>,
    pub sample_label: Option<Seq<char>>,
    pub steps: Option<u64>,
    pub height: Option<u64>,
    pub width: Option<u64>,
    pub control_strength: Option<Seq<char>>,
    pub control_image: Option<UploadView>,
    pub seed: Option<i32>,
    pub strength: Option<Seq<char>>,
    pub scheduler_label: Option<Seq<char>>,
    pub source_image: Option<UploadView>,
    pub mask: Option<UploadView>,
}

impl View for CanonicalRequest {
    type V = ReqView;

    open spec fn view(&self) -> ReqView {
        ReqView {
            prompt: opt_string_view(self.prompt),
            negative_prompt: opt_string_view(self.negative_prompt),
            model: opt_string_view(self.model),
            n: self.n,
            response_format: self.response_format,
            user: opt_string_view(self.user),
            cfg_scale: opt_string_view(self.cfg_scale),
            sample_label: match self.sample_method {
                Some(m) => Some(m.spec_label()),
                None => None,
            },
            steps: self.steps,
            height: self.height,
            width: self.width,
            control_strength: opt_string_view(self.control_strength),
            control_image: opt_upload_view(self.control_image),
            seed: self.seed,
            strength: opt_string_view(self.strength),
            scheduler_label: match self.scheduler {
                Some(m) => Some(m.spec_label()),
                None => None,
            },
            source_image: opt_upload_view(self.source_image),
            mask: opt_upload_view(self.mask),
        }
    }
}

/// The view of the schema defaults multipart parsing starts from.
pub open spec fn default_view() -> ReqView {
    ReqView {
        prompt: Some(""@),
        negative_prompt: Some(""@),
        model: Some(""@),
        n: Some(1u64),
        response_format: Some(ResponseFormat::Url),
        user: None,
        cfg_scale: Some("7.0"@),
        sample_label: Some("euler_a"@),
        steps: Some(20u64),
        height: Some(512u64),
        width: Some(512u64),
        control_strength: Some("0.9"@),
        control_image: None,
        seed: Some(42i32),
        strength: Some("0.75"@),
        scheduler_label: Some("discrete"@),
        source_image: None,
        mask: None,
    }
}

/// Every field the payload builder reads is present, at the level of the
/// mathematical view.
pub open spec fn view_ready(rv: ReqView) -> bool {
    &&& rv.prompt is Some
    &&& rv.negative_prompt is Some
    &&& rv.cfg_scale is Some
    &&& rv.strength is Some
    &&& rv.height is Some
    &&& rv.width is Some
    &&& rv.sample_label is Some
    &&& rv.scheduler_label is Some
    &&& rv.seed is Some
    &&& rv.steps is Some
}

impl CanonicalRequest {
    /// Every field the payload builder reads is present. Parsing must
    /// establish this before a payload is built; a gap is a validation
    /// failure, never a runtime fault.
    pub open spec fn payload_ready(&self) -> bool {
        &&& self.prompt is Some
        &&& self.negative_prompt is Some
        &&& self.cfg_scale is Some
        &&& self.strength is Some
        &&& self.height is Some
        &&& self.width is Some
        &&& self.sample_method is Some
        &&& self.scheduler is Some
        &&& self.seed is Some
        &&& self.steps is Some
    }

    /// The starting point multipart parsing fills in: the defaults of the
    /// backend schema.
    pub fn defaults() -> (r: CanonicalRequest)
        ensures
            r.prompt matches Some(v) && v@ == ""@,
            r.negative_prompt matches Some(v) && v@ == ""@,
            r.model matches Some(v) && v@ == ""@,
            r.n == Some(1u64),
            r.response_format == Some(ResponseFormat::Url),
            r.user is None,
            r.cfg_scale matches Some(v) && v@ == "7.0"@,
            r.sample_method matches Some(v) && v.spec_label() == "euler_a"@,
            r.steps == Some(20u64),
            r.height == Some(512u64),
            r.width == Some(512u64),
            r.control_strength matches Some(v) && v@ == "0.9"@,
            r.control_image is None,
            r.seed == Some(42i32),
            r.strength matches Some(v) && v@ == "0.75"@,
            r.scheduler matches Some(v) && v.spec_label() == "discrete"@,
            r.source_image is None,
            r.mask is None,
            r.payload_ready(),
            r@ == default_view(),
    {
        CanonicalRequest {
            prompt: Some(String::from_str("")),
            negative_prompt: Some(String::from_str("")),
            model: Some(String::from_str("")),
            n: Some(1),
            response_format: Some(ResponseFormat::Url),
            user: None,
            cfg_scale: Some(String::from_str("7.0")),
            sample_method: Some(SamplingMethod::EulerA),
            steps: Some(20),
            height: Some(512),
            width: Some(512),
            control_strength: Some(String::from_str("0.9")),
            control_image: None,
            seed: Some(42),
            strength: Some(String::from_str("0.75")),
            scheduler: Some(Scheduler::Discrete),
            source_image: None,
            mask: None,
        }
    }

    /// An entirely empty request: the starting point of JSON parsing before
    /// the schema defaults are applied.
    pub fn empty() -> (r: CanonicalRequest)
        ensures
            r.prompt is None,
            r.negative_prompt is None,
            r.model is None,
            r.n is None,
            r.response_format is None,
            r.user is None,
            r.cfg_scale is None,
            r.sample_method is None,
            r.steps is None,
            r.height is None,
            r.width is None,
            r.control_strength is None,
            r.control_image is None,
            r.seed is None,
            r.strength is None,
            r.scheduler is None,
            r.source_image is None,
            r.mask is None,
    {
        CanonicalRequest {
            prompt: None,
            negative_prompt: None,
            model: None,
            n: None,
            response_format: None,
            user: None,
            cfg_scale: None,
            sample_method: None,
            steps: None,
            height: None,
            width: None,
            control_strength: None,
            control_image: None,
            seed: None,
            strength: None,
            scheduler: None,
            source_image: None,
            mask: None,
        }
    }

    /// Checks that the payload builder's required set is populated, naming
    /// the first gap.
    pub fn validate(&self) -> (r: Result<(), crate::error::ProxyError>)
        ensures
            r is Ok <==> self.payload_ready(),
            self.payload_ready() <==> view_ready(self@),
            r matches Err(e) ==> e is Validation,
    {
        if self.prompt.is_none() {
            return Err(missing_field("prompt"));
        }
        if self.negative_prompt.is_none() {
            return Err(missing_field("negative_prompt"));
        }
        if self.cfg_scale.is_none() {
            return Err(missing_field("cfg_scale"));
        }
        if self.strength.is_none() {
            return Err(missing_field("strength"));
        }
        if self.height.is_none() {
            return Err(missing_field("height"));
        }
        if self.width.is_none() {
            return Err(missing_field("width"));
        }
        if self.sample_method.is_none() {
            return Err(missing_field("sample_method"));
        }
        if self.scheduler.is_none() {
            return Err(missing_field("scheduler"));
        }
        if self.seed.is_none() {
            return Err(missing_field("seed"));
        }
        if self.steps.is_none() {
            return Err(missing_field("steps"));
        }
        Ok(())
    }
}

/// The validation error for a required field that parsing left empty, naming
/// the field.
pub fn missing_field(name: &str) -> (r: crate::error::ProxyError)
    ensures
        r is Validation,
        r.spec_message() == "Missing required field: "@ + name@,
{
    let mut m = String::from_str("Missing required field: ");
    m.append(name);
    crate::error::ProxyError::Validation(m)
}

} // verus!
