//! `listRequiredDocuments`: the documents that the path of a claim asks for.

use crate::claim_fields::{
    bool_field, bool_or, code_if, get_or_null, note_if, string_field_with_fallback, text_or,
};
use crate::json::{put, text, text_array, texts, Json, JsonModel, Member};
use crate::mcp_error::{McpError, McpErrorModel};
use crate::model::result_model;
use crate::text::{same_text, views};
use vstd::prelude::*;

verus! {

/// The path a claim takes: as the arguments say, or else as the triage among them says, or else
/// repair.
pub open spec fn requested_path(arguments: JsonModel) -> Seq<char> {
    match arguments.text_at("recommendedPath"@) {
        Some(path) => path,
        None => text_or(arguments.get_or_null("triage"@), "recommendedPath"@, "repair"@),
    }
}

/// The documents a path asks for.
pub open spec fn documents_for(path: Seq<char>) -> Seq<Seq<char>> {
    if path == "total-loss-review"@ {
        seq!["damage_photos"@, "tow_report"@, "vehicle_valuation"@]
    } else if path == "denial-draft"@ {
        seq!["denial_reason"@, "policy_review_notes"@]
    } else if path == "more-information"@ {
        seq!["claimant_statement"@, "damage_photos"@]
    } else {
        seq!["repair_estimate"@, "damage_photos"@]
    }
}

/// What `listRequiredDocuments` answers: it refuses nothing.
pub open spec fn documents_document(arguments: JsonModel) -> JsonModel {
    let path = requested_path(arguments);
    let police_report = bool_or(arguments.get_or_null("claim"@), "policeReportFiled"@, false);
    JsonModel::Object(
        map![
            "recommendedPath"@ => JsonModel::Text(path),
            "documents"@ => texts(documents_for(path) + code_if(police_report, "police_report"@)),
            "reason"@ => JsonModel::Text("documents selected from deterministic demo claim rules"@),
        ],
    )
}

/// `listRequiredDocuments`: the documents that the path of a claim asks for.
pub fn list_required_documents(arguments: &Json) -> (outcome: Result<Json, McpError>)
    ensures
        result_model(outcome) == Ok::<JsonModel, McpErrorModel>(
            documents_document(arguments.model()),
        ),
{
    let null = Json::Null;
    let claim = get_or_null(arguments, "claim", &null);
    let recommended_path = match arguments.text_at("recommendedPath") {
        Some(path) => path.to_string(),
        None => string_field_with_fallback(
            get_or_null(arguments, "triage", &null),
            "recommendedPath",
            "repair",
        ),
    };
    let path: &str = recommended_path.as_str();

    let mut documents: Vec<String> = Vec::new();
    if same_text(path, "total-loss-review") {
        documents.push("damage_photos".to_string());
        documents.push("tow_report".to_string());
        documents.push("vehicle_valuation".to_string());
    } else if same_text(path, "denial-draft") {
        documents.push("denial_reason".to_string());
        documents.push("policy_review_notes".to_string());
    } else if same_text(path, "more-information") {
        documents.push("claimant_statement".to_string());
        documents.push("damage_photos".to_string());
    } else {
        documents.push("repair_estimate".to_string());
        documents.push("damage_photos".to_string());
    }
    proof {
        assert(views(documents@) =~= documents_for(path@));
    }
    note_if(&mut documents, bool_field(claim, "policeReportFiled", false), "police_report");

    let mut members: Vec<Member> = Vec::new();
    put(&mut members, "recommendedPath", text(path));
    put(&mut members, "documents", text_array(&documents));
    put(&mut members, "reason", text("documents selected from deterministic demo claim rules"));
    Ok(Json::Object(members))
}

} // verus!
