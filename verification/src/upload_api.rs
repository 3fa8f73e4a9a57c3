//! Reading the answers of the upload endpoint.

use vstd::prelude::*;
use crate::json::{get_i64, get_text, get_u64, i64_at, json_nodes, text_at, u64_at, JsonNode};
use crate::text::{decimal, decimal_string, push_decimal, signed_decimal, signed_decimal_string};
use crate::upload::{
    api_error_text, parse_upload_filename, stored_filename, ChunkRequest, PreuploadInfo,
    UploadFileResult,
};

verus! {

/// The step of an upload that an answer belongs to.
#[derive(Clone, Copy, Debug, PartialEq, Eq, Structural)]
pub enum UploadStage {
    Preupload,
    PostMeta,
    Chunk,
    Finish,
}

/// A field that an answer must hold.
#[derive(Clone, Copy, Debug, PartialEq, Eq, Structural)]
pub enum AnswerField {
    Auth,
    BizId,
    ChunkSize,
    Endpoint,
    UposUri,
    UploadId,
}

/// Why an answer of the endpoint is no success.
#[derive(Debug)]
pub enum UploadApiError {
    /// The answer carries a code that is not zero.
    Api { message: String, code: i64 },
    /// The answer says that the step was not taken.
    Rejected { stage: UploadStage },
    /// The answer lacks a field.
    Missing { field: AnswerField },
}

/// An error as plain values.
pub enum ApiErrorSpec {
    Api { message: Seq<char>, code: i64 },
    Rejected { stage: UploadStage },
    Missing { field: AnswerField },
}

impl View for UploadApiError {
    type V = ApiErrorSpec;

    open spec fn view(&self) -> ApiErrorSpec {
        match self {
            UploadApiError::Api { message, code } => ApiErrorSpec::Api {
                message: message@,
                code: *code,
            },
            UploadApiError::Rejected { stage } => ApiErrorSpec::Rejected { stage: *stage },
            UploadApiError::Missing { field } => ApiErrorSpec::Missing { field: *field },
        }
    }
}

/// The words for a step that was not taken.
pub open spec fn stage_words(stage: UploadStage) -> Seq<char> {
    match stage {
        UploadStage::Preupload => "预上传失败"@,
        UploadStage::PostMeta => "上传元数据失败"@,
        UploadStage::Chunk => "分片上传失败"@,
        UploadStage::Finish => "结束上传失败"@,
    }
}

/// The words for a field that is missing.
pub open spec fn field_words(field: AnswerField) -> Seq<char> {
    match field {
        AnswerField::Auth => "预上传缺少auth"@,
        AnswerField::BizId => "预上传缺少biz_id"@,
        AnswerField::ChunkSize => "预上传缺少chunk_size"@,
        AnswerField::Endpoint => "预上传缺少endpoint"@,
        AnswerField::UposUri => "预上传缺少upos_uri"@,
        AnswerField::UploadId => "上传元数据缺少upload_id"@,
    }
}

impl ApiErrorSpec {
    /// The message that the error is shown as.
    pub open spec fn text(self) -> Seq<char> {
        match self {
            ApiErrorSpec::Api { message, code } => api_error_text(message, code as int),
            ApiErrorSpec::Rejected { stage } => stage_words(stage),
            ApiErrorSpec::Missing { field } => field_words(field),
        }
    }
}

impl UploadApiError {
    /// The message that the error is shown as.
    pub fn message(&self) -> (r: String)
        ensures
            r@ == self@.text(),
    {
        match self {
            UploadApiError::Api { message, code } => crate::upload::api_error_message(
                message.as_str(),
                *code,
            ),
            UploadApiError::Rejected { stage } => match stage {
                UploadStage::Preupload => String::from_str("预上传失败"),
                UploadStage::PostMeta => String::from_str("上传元数据失败"),
                UploadStage::Chunk => String::from_str("分片上传失败"),
                UploadStage::Finish => String::from_str("结束上传失败"),
            },
            UploadApiError::Missing { field } => match field {
                AnswerField::Auth => String::from_str("预上传缺少auth"),
                AnswerField::BizId => String::from_str("预上传缺少biz_id"),
                AnswerField::ChunkSize => String::from_str("预上传缺少chunk_size"),
                AnswerField::Endpoint => String::from_str("预上传缺少endpoint"),
                AnswerField::UposUri => String::from_str("预上传缺少upos_uri"),
                AnswerField::UploadId => String::from_str("上传元数据缺少upload_id"),
            },
        }
    }
}

/// What the head of an answer says: an error where its `code` is a number
/// other than zero (with the answer's `message`, or the words of the step),
/// else an error where its `OK` is a number other than one.
pub open spec fn answer_head(
    nodes: Map<Seq<char>, JsonNode>,
    stage: UploadStage,
    with_code: bool,
) -> Option<ApiErrorSpec> {
    if with_code && i64_at(nodes, "/code"@) is Some && i64_at(nodes, "/code"@)->0 != 0 {
        Some(
            ApiErrorSpec::Api {
                message: match text_at(nodes, "/message"@) {
                    Some(m) => m,
                    None => stage_words(stage),
                },
                code: i64_at(nodes, "/code"@)->0 as i64,
            },
        )
    } else if i64_at(nodes, "/OK"@) is Some && i64_at(nodes, "/OK"@)->0 != 1 {
        Some(ApiErrorSpec::Rejected { stage })
    } else {
        None
    }
}

/// Reads the head of an answer.
pub fn check_answer_head(doc: &serde_json::Value, stage: UploadStage, with_code: bool) -> (r:
    Option<UploadApiError>)
    ensures
        match r {
            Some(e) => answer_head(json_nodes(*doc), stage, with_code) == Some(e@),
            None => answer_head(json_nodes(*doc), stage, with_code) is None,
        },
{
    if with_code {
        if let Some(code) = get_i64(doc, "/code") {
            if code != 0 {
                let message = match get_text(doc, "/message") {
                    Some(m) => m,
                    None => match stage {
                        UploadStage::Preupload => String::from_str("预上传失败"),
                        UploadStage::PostMeta => String::from_str("上传元数据失败"),
                        UploadStage::Chunk => String::from_str("分片上传失败"),
                        UploadStage::Finish => String::from_str("结束上传失败"),
                    },
                };
                return Some(UploadApiError::Api { message, code });
            }
        }
    }
    if let Some(ok) = get_i64(doc, "/OK") {
        if ok != 1 {
            return Some(UploadApiError::Rejected { stage });
        }
    }
    None
}

/// What a negotiation yields, as plain values.
pub struct PreuploadSpec {
    pub auth: Seq<char>,
    pub biz_id: i64,
    pub chunk_size: u64,
    pub endpoint: Seq<char>,
    pub upos_uri: Seq<char>,
}

/// What the answer to the pre-upload request says: the error of its head,
/// else the first of the fields `auth`, `biz_id`, `chunk_size`, `endpoint`
/// and `upos_uri` that is missing, else the five fields.
pub open spec fn preupload_answer(nodes: Map<Seq<char>, JsonNode>) -> Result<
    PreuploadSpec,
    ApiErrorSpec,
> {
    match answer_head(nodes, UploadStage::Preupload, true) {
        Some(e) => Err(e),
        None => if text_at(nodes, "/auth"@) is None {
            Err(ApiErrorSpec::Missing { field: AnswerField::Auth })
        } else if i64_at(nodes, "/biz_id"@) is None {
            Err(ApiErrorSpec::Missing { field: AnswerField::BizId })
        } else if u64_at(nodes, "/chunk_size"@) is None {
            Err(ApiErrorSpec::Missing { field: AnswerField::ChunkSize })
        } else if text_at(nodes, "/endpoint"@) is None {
            Err(ApiErrorSpec::Missing { field: AnswerField::Endpoint })
        } else if text_at(nodes, "/upos_uri"@) is None {
            Err(ApiErrorSpec::Missing { field: AnswerField::UposUri })
        } else {
            Ok(
                PreuploadSpec {
                    auth: text_at(nodes, "/auth"@)->0,
                    biz_id: i64_at(nodes, "/biz_id"@)->0 as i64,
                    chunk_size: u64_at(nodes, "/chunk_size"@)->0 as u64,
                    endpoint: text_at(nodes, "/endpoint"@)->0,
                    upos_uri: text_at(nodes, "/upos_uri"@)->0,
                },
            )
        },
    }
}

/// Reads the answer to the pre-upload request.
pub fn parse_preupload_answer(doc: &serde_json::Value) -> (r: Result<PreuploadInfo, UploadApiError>)
    ensures
        match r {
            Ok(info) => preupload_answer(json_nodes(*doc)) == Ok::<PreuploadSpec, ApiErrorSpec>(
                PreuploadSpec {
                    auth: info.auth@,
                    biz_id: info.biz_id,
                    chunk_size: info.chunk_size,
                    endpoint: info.endpoint@,
                    upos_uri: info.upos_uri@,
                },
            ),
            Err(e) => preupload_answer(json_nodes(*doc)) == Err::<PreuploadSpec, ApiErrorSpec>(e@),
        },
{
    if let Some(e) = check_answer_head(doc, UploadStage::Preupload, true) {
        return Err(e);
    }
    let auth = match get_text(doc, "/auth") {
        Some(v) => v,
        None => {
            return Err(UploadApiError::Missing { field: AnswerField::Auth });
        },
    };
    let biz_id = match get_i64(doc, "/biz_id") {
        Some(v) => v,
        None => {
            return Err(UploadApiError::Missing { field: AnswerField::BizId });
        },
    };
    let chunk_size = match get_u64(doc, "/chunk_size") {
        Some(v) => v,
        None => {
            return Err(UploadApiError::Missing { field: AnswerField::ChunkSize });
        },
    };
    let endpoint = match get_text(doc, "/endpoint") {
        Some(v) => v,
        None => {
            return Err(UploadApiError::Missing { field: AnswerField::Endpoint });
        },
    };
    let upos_uri = match get_text(doc, "/upos_uri") {
        Some(v) => v,
        None => {
            return Err(UploadApiError::Missing { field: AnswerField::UposUri });
        },
    };
    Ok(PreuploadInfo { auth, biz_id, chunk_size, endpoint, upos_uri })
}

/// What the answer to the metadata post says: the error of its head, else
/// the upload id, or that it is missing.
pub open spec fn meta_answer(nodes: Map<Seq<char>, JsonNode>) -> Result<Seq<char>, ApiErrorSpec> {
    match answer_head(nodes, UploadStage::PostMeta, true) {
        Some(e) => Err(e),
        None => match text_at(nodes, "/upload_id"@) {
            Some(id) => Ok(id),
            None => Err(ApiErrorSpec::Missing { field: AnswerField::UploadId }),
        },
    }
}

/// Reads the answer to the metadata post.
pub fn parse_meta_answer(doc: &serde_json::Value) -> (r: Result<String, UploadApiError>)
    ensures
        match r {
            Ok(id) => meta_answer(json_nodes(*doc)) == Ok::<Seq<char>, ApiErrorSpec>(id@),
            Err(e) => meta_answer(json_nodes(*doc)) == Err::<Seq<char>, ApiErrorSpec>(e@),
        },
{
    if let Some(e) = check_answer_head(doc, UploadStage::PostMeta, true) {
        return Err(e);
    }
    match get_text(doc, "/upload_id") {
        Some(id) => Ok(id),
        None => Err(UploadApiError::Missing { field: AnswerField::UploadId }),
    }
}

/// What a finished upload yields, as plain values.
pub struct FileResultSpec {
    pub cid: i64,
    pub filename: Seq<char>,
}

/// What the answer to the closing post says: it is rejected unless its
/// `OK` is the number one; else the id is the one under `data.cid`, or the
/// business id where there is none, and the name is the one from `key`, or
/// from the file's name where there is no key.
pub open spec fn finish_answer(
    nodes: Map<Seq<char>, JsonNode>,
    biz_id: i64,
    file_name: Seq<char>,
) -> Result<FileResultSpec, ApiErrorSpec> {
    if i64_at(nodes, "/OK"@) == Some(1int) {
        Ok(
            FileResultSpec {
                cid: match i64_at(nodes, "/data/cid"@) {
                    Some(cid) => cid as i64,
                    None => biz_id,
                },
                filename: stored_filename(text_at(nodes, "/key"@), file_name),
            },
        )
    } else {
        Err(ApiErrorSpec::Rejected { stage: UploadStage::Finish })
    }
}

/// Reads the answer to the closing post.
pub fn parse_finish_answer(doc: &serde_json::Value, biz_id: i64, file_name: &str) -> (r: Result<
    UploadFileResult,
    UploadApiError,
>)
    ensures
        match r {
            Ok(done) => finish_answer(json_nodes(*doc), biz_id, file_name@) == Ok::<
                FileResultSpec,
                ApiErrorSpec,
            >(FileResultSpec { cid: done.cid, filename: done.filename@ }),
            Err(e) => finish_answer(json_nodes(*doc), biz_id, file_name@) == Err::<
                FileResultSpec,
                ApiErrorSpec,
            >(e@),
        },
{
    match get_i64(doc, "/OK") {
        Some(1) => {},
        _ => {
            return Err(UploadApiError::Rejected { stage: UploadStage::Finish });
        },
    }
    let cid = match get_i64(doc, "/data/cid") {
        Some(cid) => cid,
        None => biz_id,
    };
    let key = get_text(doc, "/key");
    let filename = match &key {
        Some(k) => parse_upload_filename(Some(k.as_str()), file_name),
        None => parse_upload_filename(None, file_name),
    };
    Ok(UploadFileResult { cid, filename })
}

/// The profile that every request of an upload names.
pub const UPLOAD_PROFILE: &'static str = "ugcfx/bup";

/// The version of the uploader that the pre-upload request names.
pub const UPLOADER_VERSION: &'static str = "2.14.0.0";

/// The address of the pre-upload request.
pub const PREUPLOAD_URL: &'static str = "https://member.bilibili.com/preupload";

/// The entity tag that the closing post names for every part.
pub const PART_ETAG: &'static str = "etag";

/// One parameter of a request's query.
#[derive(Clone, Debug, PartialEq, Eq)]
pub struct QueryParam {
    pub name: String,
    pub value: String,
}

/// The parameters that a list stands for, as pairs of name and value.
pub open spec fn params_of(list: Seq<QueryParam>) -> Seq<(Seq<char>, Seq<char>)> {
    list.map_values(|p: QueryParam| (p.name@, p.value@))
}

/// One parameter.
fn param(name: &str, value: String) -> (r: QueryParam)
    ensures
        r.name@ == name@,
        r.value@ == value@,
{
    QueryParam { name: String::from_str(name), value }
}

/// The query of the pre-upload request for a file.
pub fn preupload_params(file_name: &str, file_size: u64) -> (r: Vec<QueryParam>)
    ensures
        params_of(r@) == seq![
            ("name"@, file_name@),
            ("r"@, "upos"@),
            ("profile"@, UPLOAD_PROFILE@),
            ("version"@, UPLOADER_VERSION@),
            ("size"@, decimal(file_size as nat)),
        ],
{
    let mut list: Vec<QueryParam> = Vec::new();
    list.push(param("name", String::from_str(file_name)));
    list.push(param("r", String::from_str("upos")));
    list.push(param("profile", String::from_str(UPLOAD_PROFILE)));
    list.push(param("version", String::from_str(UPLOADER_VERSION)));
    list.push(param("size", decimal_string(file_size)));
    assert(params_of(list@) =~= seq![
        ("name"@, file_name@),
        ("r"@, "upos"@),
        ("profile"@, UPLOAD_PROFILE@),
        ("version"@, UPLOADER_VERSION@),
        ("size"@, decimal(file_size as nat)),
    ]);
    list
}

/// The query of the metadata post that opens an upload.
pub fn meta_params(preupload: &PreuploadInfo, file_size: u64) -> (r: Vec<QueryParam>)
    ensures
        params_of(r@) == seq![
            ("uploads"@, Seq::<char>::empty()),
            ("output"@, "json"@),
            ("profile"@, UPLOAD_PROFILE@),
            ("filesize"@, decimal(file_size as nat)),
            ("partsize"@, decimal(preupload.chunk_size as nat)),
            ("biz_id"@, signed_decimal(preupload.biz_id as int)),
        ],
{
    let mut list: Vec<QueryParam> = Vec::new();
    list.push(param("uploads", String::new()));
    list.push(param("output", String::from_str("json")));
    list.push(param("profile", String::from_str(UPLOAD_PROFILE)));
    list.push(param("filesize", decimal_string(file_size)));
    list.push(param("partsize", decimal_string(preupload.chunk_size)));
    list.push(param("biz_id", signed_decimal_string(preupload.biz_id)));
    assert(params_of(list@) =~= seq![
        ("uploads"@, Seq::<char>::empty()),
        ("output"@, "json"@),
        ("profile"@, UPLOAD_PROFILE@),
        ("filesize"@, decimal(file_size as nat)),
        ("partsize"@, decimal(preupload.chunk_size as nat)),
        ("biz_id"@, signed_decimal(preupload.biz_id as int)),
    ]);
    list
}

/// The query with which a chunk is put.
pub fn chunk_params(chunk: &ChunkRequest, upload_id: &str) -> (r: Vec<QueryParam>)
    ensures
        params_of(r@) == seq![
            ("partNumber"@, decimal(chunk.part_number as nat)),
            ("uploadId"@, upload_id@),
            ("chunk"@, decimal(chunk.chunk as nat)),
            ("chunks"@, decimal(chunk.chunks as nat)),
            ("size"@, decimal(chunk.size as nat)),
            ("start"@, decimal(chunk.start as nat)),
            ("end"@, decimal(chunk.end as nat)),
            ("total"@, decimal(chunk.total as nat)),
        ],
{
    let mut list: Vec<QueryParam> = Vec::new();
    list.push(param("partNumber", decimal_string(chunk.part_number)));
    list.push(param("uploadId", String::from_str(upload_id)));
    list.push(param("chunk", decimal_string(chunk.chunk)));
    list.push(param("chunks", decimal_string(chunk.chunks)));
    list.push(param("size", decimal_string(chunk.size)));
    list.push(param("start", decimal_string(chunk.start)));
    list.push(param("end", decimal_string(chunk.end)));
    list.push(param("total", decimal_string(chunk.total)));
    assert(params_of(list@) =~= seq![
        ("partNumber"@, decimal(chunk.part_number as nat)),
        ("uploadId"@, upload_id@),
        ("chunk"@, decimal(chunk.chunk as nat)),
        ("chunks"@, decimal(chunk.chunks as nat)),
        ("size"@, decimal(chunk.size as nat)),
        ("start"@, decimal(chunk.start as nat)),
        ("end"@, decimal(chunk.end as nat)),
        ("total"@, decimal(chunk.total as nat)),
    ]);
    list
}

/// The query of the post that closes an upload.
pub fn finish_params(preupload: &PreuploadInfo, upload_id: &str, file_name: &str) -> (r: Vec<
    QueryParam,
>)
    ensures
        params_of(r@) == seq![
            ("output"@, "json"@),
            ("name"@, file_name@),
            ("profile"@, UPLOAD_PROFILE@),
            ("uploadId"@, upload_id@),
            ("biz_id"@, signed_decimal(preupload.biz_id as int)),
        ],
{
    let mut list: Vec<QueryParam> = Vec::new();
    list.push(param("output", String::from_str("json")));
    list.push(param("name", String::from_str(file_name)));
    list.push(param("profile", String::from_str(UPLOAD_PROFILE)));
    list.push(param("uploadId", String::from_str(upload_id)));
    list.push(param("biz_id", signed_decimal_string(preupload.biz_id)));
    assert(params_of(list@) =~= seq![
        ("output"@, "json"@),
        ("name"@, file_name@),
        ("profile"@, UPLOAD_PROFILE@),
        ("uploadId"@, upload_id@),
        ("biz_id"@, signed_decimal(preupload.biz_id as int)),
    ]);
    list
}

/// The numbers one to `total`, in their order.
pub open spec fn part_numbers(total: nat) -> Seq<u64> {
    Seq::new(total, |i: int| (i + 1) as u64)
}

/// The part numbers that the closing post lists: one to the number of
/// chunks.
pub fn finish_part_numbers(total_chunks: u64) -> (r: Vec<u64>)
    ensures
        r@ == part_numbers(total_chunks as nat),
{
    let mut parts: Vec<u64> = Vec::new();
    let mut index: u64 = 0;
    while index < total_chunks
        invariant
            index <= total_chunks,
            parts@.len() == index,
            forall|i: int| 0 <= i < parts@.len() ==> #[trigger] parts@[i] == i + 1,
        decreases total_chunks - index,
    {
        parts.push(index + 1);
        index += 1;
    }
    assert(parts@ =~= part_numbers(total_chunks as nat));
    parts
}

} // verus!
