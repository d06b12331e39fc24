use base64::Engine;

use crate::text::{prefix_chars, prefix_spec, remove_all, remove_all_spec, trim_spec, trim_str};
use vstd::prelude::*;
use vstd::string::*;

verus! {

/// The standard-alphabet, padded base64 rendering of a byte sequence.
/// Named, not spelled out: it is a fixed function of the bytes alone.
pub uninterp spec fn base64_of(bytes: Seq<u8>) -> Seq<char>;

/// The text of the first content block of a provider reply document:
/// `Some` of the string at content[0].text iff `doc` is valid JSON and
/// that path holds a JSON string, `None` otherwise. A fixed function of
/// the document alone.
pub uninterp spec fn first_text_block(doc: Seq<char>) -> Option<Seq<char>>;

/// The string field `key` of the JSON object written in `doc`: `Some` of
/// its value iff `doc` parses as JSON to an object whose field `key` is a
/// JSON string, `None` otherwise. A fixed function of `doc` and `key`.
pub uninterp spec fn json_str_field(doc: Seq<char>, key: Seq<char>) -> Option<Seq<char>>;

/// Relies on base64::Engine::encode with engine::general_purpose::STANDARD:
/// the result is a fixed function of the input bytes, four output
/// characters per started three-byte group, padding included.
#[verifier::external_body]
fn b64_encode(data: &[u8]) -> (r: String)
    requires
        data@.len() <= usize::MAX / 4,
    ensures
        r@ == base64_of(data@),
        r@.len() == 4 * ((data@.len() + 2) / 3),
{
    base64::engine::general_purpose::STANDARD.encode(data)
}

/// Relies on serde_json::from_str::<Value>, Value::get and Value::as_str:
/// parses `doc` and walks to content[0].text; every step and hence the
/// whole result is a fixed function of `doc` alone.
#[verifier::external_body]
pub(crate) fn extract_text_block(doc: &str) -> (r: Option<String>)
    ensures
        r is Some <==> first_text_block(doc@) is Some,
        r matches Some(t) ==> Some(t@) == first_text_block(doc@),
{
    let v: serde_json::Value = match serde_json::from_str(doc) {
        Ok(v) => v,
        Err(_) => return None,
    };
    let t = v.get("content")?.get(0)?.get("text")?.as_str()?;
    Some(t.to_owned())
}

/// Relies on serde_json::from_str::<Value>, Value::get and Value::as_str:
/// parses `doc` and reads its string field `key`; the result is a fixed
/// function of `doc` and `key` alone.
#[verifier::external_body]
fn get_str_field(doc: &str, key: &str) -> (r: Option<String>)
    ensures
        r is Some <==> json_str_field(doc@, key@) is Some,
        r matches Some(t) ==> Some(t@) == json_str_field(doc@, key@),
{
    let v: serde_json::Value = match serde_json::from_str(doc) {
        Ok(v) => v,
        Err(_) => return None,
    };
    let t = v.get(key)?.as_str()?;
    Some(t.to_owned())
}

/// Base64-encodes image bytes for the provider payload.
pub fn encode_image(data: &[u8]) -> (r: String)
    requires
        data@.len() <= usize::MAX / 4,
    ensures
        r@ == base64_of(data@),
        r@.len() == 4 * ((data@.len() + 2) / 3),
{
    b64_encode(data)
}

/// The instruction text sent with a primary classification request.
pub open spec fn primary_prompt_spec() -> Seq<char> {
    "Analyze this screenshot. Output JSON only.\n\nRules:\n- 'new_filename': snake_case, 3-4 words max, descriptive, .png\n- 'category': ONE simple word from: Code, Finance, Social, Shopping, Email, Chat, Browser, Design, Documents, Settings, Media, Other\n- 'reasoning': 2-3 words why\n\nExample: {\"new_filename\": \"stripe_invoice.png\", \"category\": \"Finance\", \"reasoning\": \"payment receipt\"}"@
}

/// Returns the primary classification instruction text.
pub fn primary_prompt() -> (r: &'static str)
    ensures
        r@ == primary_prompt_spec(),
{
    "Analyze this screenshot. Output JSON only.\n\nRules:\n- 'new_filename': snake_case, 3-4 words max, descriptive, .png\n- 'category': ONE simple word from: Code, Finance, Social, Shopping, Email, Chat, Browser, Design, Documents, Settings, Media, Other\n- 'reasoning': 2-3 words why\n\nExample: {\"new_filename\": \"stripe_invoice.png\", \"category\": \"Finance\", \"reasoning\": \"payment receipt\"}"
}

/// The instruction text sent with a subcategory refinement request for a
/// file already assigned `parent` as its category.
pub open spec fn refine_prompt_spec(parent: Seq<char>) -> Seq<char> {
    "This screenshot is currently categorized as '"@ + parent
        + "'. Look at the image and give a MORE SPECIFIC subcategory. Output ONLY a JSON object with 'subcategory' (2-3 words max, be specific based on what you see). Examples for Finance: 'Receipts', 'Bank_Statements', 'Invoices', 'Tax_Documents', 'Subscriptions'. Examples for Dev: 'Terminal', 'Code_Editor', 'Documentation', 'GitHub', 'Errors'. Example output: {\"subcategory\": \"Bank_Statements\"}"@
}

/// Builds the subcategory refinement instruction text around the parent
/// category.
pub fn refine_prompt(parent: &str) -> (r: String)
    ensures
        r@ == refine_prompt_spec(parent@),
{
    let mut s = "This screenshot is currently categorized as '".to_owned();
    s.append(parent);
    s.append(
        "'. Look at the image and give a MORE SPECIFIC subcategory. Output ONLY a JSON object with 'subcategory' (2-3 words max, be specific based on what you see). Examples for Finance: 'Receipts', 'Bank_Statements', 'Invoices', 'Tax_Documents', 'Subscriptions'. Examples for Dev: 'Terminal', 'Code_Editor', 'Documentation', 'GitHub', 'Errors'. Example output: {\"subcategory\": \"Bank_Statements\"}",
    );
    s
}

/// What the transport handed back for one completed provider exchange:
/// the HTTP status code and the response body text.
pub struct ProviderResponse {
    pub status: u16,
    pub body: String,
}

/// The provider answered with a success status. Only such a reply may
/// carry a classification: any other status is a failure, whatever the
/// body says.
pub open spec fn status_ok(status: u16) -> bool {
    200 <= status < 300
}

/// Decides whether a provider status code is a success status.
pub fn is_success_status(status: u16) -> (r: bool)
    ensures
        r == status_ok(status),
{
    200 <= status && status < 300
}

/// One fully assembled provider request: what the transport layer sends,
/// short of the credential header and the fixed endpoint.
pub struct ClassifyRequest {
    pub model: String,
    pub max_tokens: u64,
    pub prompt: String,
    pub image_base64: String,
    pub media_type: String,
}

/// The response-token budget of a primary classification request.
pub const PRIMARY_MAX_TOKENS: u64 = 1024;

/// The response-token budget of a subcategory refinement request.
pub const REFINE_MAX_TOKENS: u64 = 256;

/// Returns the fixed model identifier every request names.
pub fn model_id() -> (r: &'static str)
    ensures
        r@ == "vision-classifier-v1"@,
{
    "vision-classifier-v1"
}

/// Returns the provider message endpoint requests are sent to.
pub fn api_endpoint() -> (r: &'static str)
    ensures
        r@ == "https://api.anthropic.com/v1/messages"@,
{
    "https://api.anthropic.com/v1/messages"
}

/// Returns the fixed protocol-version header value.
pub fn api_version() -> (r: &'static str)
    ensures
        r@ == "2023-06-01"@,
{
    "2023-06-01"
}

/// Assembles the primary classification request for one image.
pub fn build_primary_request(image: &[u8]) -> (r: ClassifyRequest)
    requires
        image@.len() <= usize::MAX / 4,
    ensures
        r.model@ == "vision-classifier-v1"@,
        r.max_tokens == PRIMARY_MAX_TOKENS,
        r.prompt@ == primary_prompt_spec(),
        r.image_base64@ == base64_of(image@),
        r.media_type@ == "image/png"@,
{
    ClassifyRequest {
        model: model_id().to_owned(),
        max_tokens: PRIMARY_MAX_TOKENS,
        prompt: primary_prompt().to_owned(),
        image_base64: encode_image(image),
        media_type: "image/png".to_owned(),
    }
}

/// Assembles the subcategory refinement request for one image and its
/// parent category.
pub fn build_refine_request(image: &[u8], parent: &str) -> (r: ClassifyRequest)
    requires
        image@.len() <= usize::MAX / 4,
    ensures
        r.model@ == "vision-classifier-v1"@,
        r.max_tokens == REFINE_MAX_TOKENS,
        r.prompt@ == refine_prompt_spec(parent@),
        r.image_base64@ == base64_of(image@),
        r.media_type@ == "image/png"@,
{
    ClassifyRequest {
        model: model_id().to_owned(),
        max_tokens: REFINE_MAX_TOKENS,
        prompt: refine_prompt(parent),
        image_base64: encode_image(image),
        media_type: "image/png".to_owned(),
    }
}

/// A reply text block after code-fence stripping: trimmed, then every
/// json-opening fence marker and every bare fence marker removed.
pub open spec fn cleaned_reply(t: Seq<char>) -> Seq<char> {
    remove_all_spec(remove_all_spec(trim_spec(t), "```json"@), "```"@)
}

/// Strips code-fence markers from a reply text block.
pub fn clean_reply_text(t: &str) -> (r: String)
    ensures
        r@ == cleaned_reply(t@),
{
    proof {
        reveal_strlit("```json");
        reveal_strlit("```");
    }
    let trimmed = trim_str(t);
    let step = remove_all(trimmed, "```json");
    remove_all(step.as_str(), "```")
}

/// The structured shape a primary classification reply must take.
pub struct ReplyFields {
    pub new_filename: String,
    pub category: String,
    pub reasoning: String,
}

/// A text block carries an acceptable primary reply iff, after fence
/// stripping, it is a JSON object with string fields new_filename and
/// category. The reasoning field is optional.
pub open spec fn reply_accepted(t: Seq<char>) -> bool {
    &&& json_str_field(cleaned_reply(t), "new_filename"@) is Some
    &&& json_str_field(cleaned_reply(t), "category"@) is Some
}

/// `f` holds exactly the fields of the reply embedded in text block `t`,
/// with a missing reasoning defaulted to the empty string.
pub open spec fn reply_fields_ok(t: Seq<char>, f: ReplyFields) -> bool {
    &&& Some(f.new_filename@) == json_str_field(cleaned_reply(t), "new_filename"@)
    &&& Some(f.category@) == json_str_field(cleaned_reply(t), "category"@)
    &&& match json_str_field(cleaned_reply(t), "reasoning"@) {
        Some(rr) => f.reasoning@ == rr,
        None => f.reasoning@ == Seq::<char>::empty(),
    }
}

/// Parses one reply text block into the expected structured shape.
/// Returns `None` — a classification failure, not a fatal error — iff the
/// stripped block is not a JSON object with both required string fields.
pub fn parse_reply_text(t: &str) -> (r: Option<ReplyFields>)
    ensures
        r is Some <==> reply_accepted(t@),
        r matches Some(f) ==> reply_fields_ok(t@, f),
{
    let cleaned = clean_reply_text(t);
    let nf = get_str_field(cleaned.as_str(), "new_filename");
    let cat = get_str_field(cleaned.as_str(), "category");
    match (nf, cat) {
        (Some(new_filename), Some(category)) => {
            let reasoning = match get_str_field(cleaned.as_str(), "reasoning") {
                Some(rr) => rr,
                None => String::new(),
            };
            Some(ReplyFields { new_filename, category, reasoning })
        },
        _ => None,
    }
}

/// A full provider response body yields reply fields iff it has a first
/// text block and that block carries an acceptable reply.
pub open spec fn body_accepted(body: Seq<char>) -> bool {
    first_text_block(body) matches Some(t) && reply_accepted(t)
}

/// Parses a whole provider response body: extracts the first text block
/// and parses it as a primary classification reply.
pub fn parse_classifier_reply(body: &str) -> (r: Option<ReplyFields>)
    ensures
        r is Some <==> body_accepted(body@),
        r matches Some(f) ==> reply_fields_ok(first_text_block(body@)->0, f),
{
    match extract_text_block(body) {
        Some(t) => parse_reply_text(t.as_str()),
        None => None,
    }
}

/// The subcategory reply text after the stripping used on that path: the
/// fence-stripped block, trimmed once more.
pub open spec fn cleaned_subreply(t: Seq<char>) -> Seq<char> {
    trim_spec(cleaned_reply(t))
}

/// A text block carries an acceptable subcategory iff after stripping it
/// is a JSON object whose string field subcategory is non-empty.
pub open spec fn subcategory_accepted(t: Seq<char>) -> bool {
    json_str_field(cleaned_subreply(t), "subcategory"@) matches Some(s) && s.len() > 0
}

/// Parses one subcategory reply text block. Returns `None` iff the block
/// has no subcategory string field or that field is empty: a result with
/// an empty subcategory is never produced.
pub fn parse_subcategory_text(t: &str) -> (r: Option<String>)
    ensures
        r is Some <==> subcategory_accepted(t@),
        r matches Some(s) ==> Some(s@) == json_str_field(cleaned_subreply(t@), "subcategory"@)
            && s@.len() > 0,
{
    let stripped = clean_reply_text(t);
    let again = trim_str(stripped.as_str());
    match get_str_field(again, "subcategory") {
        Some(s) => {
            if s.as_str().unicode_len() > 0 {
                Some(s)
            } else {
                None
            }
        },
        None => None,
    }
}

/// The only rendering in which a credential may surface in diagnostics:
/// at most its first ten characters, then an ellipsis.
pub fn mask_credential(k: &str) -> (r: String)
    ensures
        r@ == prefix_spec(k@, 10) + "..."@,
{
    let mut m = prefix_chars(k, 10);
    m.append("...");
    m
}

} // verus!
