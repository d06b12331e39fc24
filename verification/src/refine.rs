use crate::classify::{
    cleaned_subreply, extract_text_block, first_text_block, is_success_status, json_str_field,
    parse_subcategory_text, status_ok, subcategory_accepted, ProviderResponse,
};
use crate::MAX_FILE_SIZE;
use vstd::prelude::*;

verus! {

/// The more specific subcategory found for one already-categorized file,
/// keyed by the file's name. The caller associates it with the right
/// proposal; no link is persisted here.
#[derive(Debug)]
pub struct SubcategoryResult {
    pub id: String,
    pub subcategory: String,
}

/// Why a subcategory refinement call failed. The refinement path is
/// synchronous: errors go back to the caller, not onto the event channel.
#[derive(Debug)]
pub enum RefineError {
    Oversize,
    ReadFailed,
    Transport(String),
    ParseFailed,
}

impl RefineError {
    /// The error string handed back to the caller.
    pub fn message(&self) -> (r: String)
        ensures
            match *self {
                RefineError::Oversize => r@ == "File exceeds 5MB limit"@,
                RefineError::ReadFailed => r@ == "Failed to read file"@,
                RefineError::Transport(m) => r@ == m@,
                RefineError::ParseFailed => r@ == "Failed to parse subcategory"@,
            },
    {
        match self {
            RefineError::Oversize => "File exceeds 5MB limit".to_owned(),
            RefineError::ReadFailed => "Failed to read file".to_owned(),
            RefineError::Transport(m) => m.clone(),
            RefineError::ParseFailed => "Failed to parse subcategory".to_owned(),
        }
    }
}

/// Re-validates the size limit on the refinement path: the file is read
/// afresh, so its size is checked afresh, with a distinct error.
pub fn check_refine_size(size: u64) -> (r: Result<(), RefineError>)
    ensures
        r is Ok <==> size <= MAX_FILE_SIZE,
        r matches Err(e) ==> e is Oversize,
{
    if size > MAX_FILE_SIZE {
        Err(RefineError::Oversize)
    } else {
        Ok(())
    }
}

/// Concludes a refinement call from the provider's response: `Ok` with
/// the file's name and a non-empty subcategory exactly when the provider
/// answered with a success status and the body has a first text block
/// whose stripped content is a JSON object with a non-empty subcategory
/// string. A non-success status is a failure whatever the body holds; a
/// success status without an acceptable subcategory is the fixed parse
/// error. An `Ok` is never returned with an empty subcategory.
pub fn conclude_refine(filename: &str, response: &ProviderResponse) -> (r: Result<
    SubcategoryResult,
    RefineError,
>)
    ensures
        r is Ok <==> (status_ok(response.status) && (first_text_block(response.body@)
            matches Some(t) && subcategory_accepted(t))),
        r matches Ok(s) ==> s.id@ == filename@ && Some(s.subcategory@) == json_str_field(
            cleaned_subreply(first_text_block(response.body@)->0),
            "subcategory"@,
        ) && s.subcategory@.len() > 0,
        !status_ok(response.status) ==> (r matches Err(e) && e matches RefineError::Transport(m)
            && m@ == "Provider returned an error status"@),
        status_ok(response.status) && r is Err ==> (r matches Err(e) && e is ParseFailed),
{
    if !is_success_status(response.status) {
        return Err(RefineError::Transport("Provider returned an error status".to_owned()));
    }
    match extract_text_block(response.body.as_str()) {
        Some(t) => match parse_subcategory_text(t.as_str()) {
            Some(sub) => Ok(SubcategoryResult { id: filename.to_owned(), subcategory: sub }),
            None => Err(RefineError::ParseFailed),
        },
        None => Err(RefineError::ParseFailed),
    }
}

} // verus!
