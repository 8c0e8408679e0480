//! `generateCustomerSummary`: what to tell the customer.

use crate::claim_fields::{
    filled_text, get_or_null, missing_argument, missing_field, required_arg,
    required_string_field, string_field, string_field_with_fallback, text_or, u64_field, u64_or,
};
use crate::json::{
    items_model, lemma_items_model, put, text_array, texts, Json, JsonModel, Member,
};
use crate::mcp_error::{McpError, McpErrorModel};
use crate::model::result_model;
use crate::text::{concat2, concat3, decimal, decimal_text, join, joined, views};
use vstd::prelude::*;
use vstd::string::StringExecFns;

verus! {

/// The texts among the items of an array, in order.
pub open spec fn texts_among(items: Seq<JsonModel>) -> Seq<Seq<char>> {
    items.filter(|item: JsonModel| item is Text).map_values(
        |item: JsonModel| item->Text_0,
    )
}

/// The documents to name to the customer.
pub open spec fn document_list(documents: JsonModel) -> Seq<char> {
    match documents.array_at("documents"@) {
        Some(items) => joined(texts_among(items), ", "@),
        None => "repair_estimate, damage_photos"@,
    }
}

/// The sentences about the outcome of a claim.
pub open spec fn customer_summary(
    recommended_path: Seq<char>,
    estimated_loss: u64,
    deductible: u64,
) -> Seq<char> {
    "Your claim is recommended for "@ + recommended_path + ". The estimated loss is $"@ + decimal(
        estimated_loss as nat,
    ) + ", and the applicable deductible is $"@ + decimal(deductible as nat) + "."@
}

/// What `generateCustomerSummary` answers.
pub open spec fn summary_outcome(arguments: JsonModel) -> Result<JsonModel, McpErrorModel> {
    let claim = arguments.get_or_null("claim"@);
    let triage = arguments.get_or_null("triage"@);
    let path = text_or(
        arguments.get_or_null("settlement"@),
        "recommendedPath"@,
        text_or(triage, "recommendedPath"@, Seq::empty()),
    );
    if arguments.get("claim"@) is None {
        Err(missing_argument("claim"@))
    } else if filled_text(claim, "customerId"@) is None {
        Err(missing_field("customerId"@))
    } else {
        Ok(
            JsonModel::Object(
                map![
                    "customerId"@ => JsonModel::Text(filled_text(claim, "customerId"@)->0),
                    "recommendedPath"@ => JsonModel::Text(path),
                    "customerSummary"@ => JsonModel::Text(
                        customer_summary(
                            path,
                            u64_or(triage, "estimatedLoss"@, 0),
                            u64_or(arguments.get_or_null("coverageReview"@), "deductible"@, 0),
                        ),
                    ),
                    "nextActions"@ => texts(
                        seq![
                            "Provide required documents: "@ + document_list(
                                arguments.get_or_null("documents"@),
                            ),
                            "A claims representative will review the submitted materials."@,
                        ],
                    ),
                ],
            ),
        )
    }
}

/// The texts among the items of an array, in order.
fn collect_texts(items: &Vec<Json>) -> (found: Vec<String>)
    ensures
        views(found@) == texts_among(items_model(items@)),
{
    let ghost all = items_model(items@);
    let ghost is_text = |item: JsonModel| item is Text;
    let ghost text_in = |item: JsonModel| item->Text_0;
    let mut found: Vec<String> = Vec::new();
    let mut i: usize = 0;
    proof {
        lemma_items_model(items@);
        assert(all.take(0).filter(is_text) =~= Seq::empty()) by {
            reveal(Seq::filter);
        }
    }
    while i < items.len()
        invariant
            i <= items@.len(),
            all == items_model(items@),
            all.len() == items@.len(),
            is_text == (|item: JsonModel| item is Text),
            text_in == (|item: JsonModel| item->Text_0),
            views(found@) == all.take(i as int).filter(is_text).map_values(text_in),
        decreases items@.len() - i,
    {
        proof {
            lemma_items_model(items@);
            assert(all.take(i + 1).drop_last() =~= all.take(i as int));
            reveal(Seq::filter);
        }
        let ghost before = views(found@);
        match items[i].as_str() {
            Some(t) => {
                found.push(t.to_string());
                proof {
                    assert(all.take(i + 1).filter(is_text) == all.take(i as int).filter(
                        is_text,
                    ).push(all[i as int]));
                    assert(views(found@) =~= before.push(t@));
                    assert(all.take(i + 1).filter(is_text).map_values(text_in) =~= before.push(t@));
                }
            },
            None => {
                proof {
                    assert(all.take(i + 1).filter(is_text) == all.take(i as int).filter(is_text));
                }
            },
        }
        i = i + 1;
    }
    proof {
        assert(all.take(items@.len() as int) =~= all);
    }
    found
}

/// `generateCustomerSummary`: what to tell the customer.
pub fn generate_customer_summary(arguments: &Json) -> (outcome: Result<Json, McpError>)
    ensures
        result_model(outcome) == summary_outcome(arguments.model()),
{
    let null = Json::Null;
    let claim = match required_arg(arguments, "claim") {
        Ok(claim) => claim,
        Err(error) => return Err(error),
    };
    let coverage = get_or_null(arguments, "coverageReview", &null);
    let triage = get_or_null(arguments, "triage", &null);
    let documents = get_or_null(arguments, "documents", &null);
    let settlement = get_or_null(arguments, "settlement", &null);

    let customer_id = match required_string_field(claim, "customerId") {
        Ok(customer_id) => customer_id,
        Err(error) => return Err(error),
    };
    let triage_path = string_field(triage, "recommendedPath");
    let recommended_path = string_field_with_fallback(
        settlement,
        "recommendedPath",
        triage_path.as_str(),
    );
    let deductible: u64 = u64_field(coverage, "deductible", 0);
    let estimated_loss: u64 = u64_field(triage, "estimatedLoss", 0);
    let document_names = match documents.array_at("documents") {
        Some(items) => join(&collect_texts(items), ", "),
        None => "repair_estimate, damage_photos".to_string(),
    };

    let mut summary = concat3(
        "Your claim is recommended for ",
        recommended_path.as_str(),
        ". The estimated loss is $",
    );
    summary.append(decimal_text(estimated_loss).as_str());
    summary.append(", and the applicable deductible is $");
    summary.append(decimal_text(deductible).as_str());
    summary.append(".");

    let mut next_actions: Vec<String> = Vec::new();
    next_actions.push(concat2("Provide required documents: ", document_names.as_str()));
    next_actions.push("A claims representative will review the submitted materials.".to_string());
    proof {
        assert(views(next_actions@) =~= seq![
            "Provide required documents: "@ + document_list(documents.model()),
            "A claims representative will review the submitted materials."@,
        ]);
    }

    let mut members: Vec<Member> = Vec::new();
    put(&mut members, "customerId", Json::Text(customer_id));
    put(&mut members, "recommendedPath", Json::Text(recommended_path));
    put(&mut members, "customerSummary", Json::Text(summary));
    put(&mut members, "nextActions", text_array(&next_actions));
    Ok(Json::Object(members))
}

} // verus!
