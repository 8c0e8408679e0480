//! The claim tools: their list, and how they are called.

use crate::claim_documents::{documents_document, list_required_documents};
use crate::claim_risk::{risk_outcome, score_claim_risk};
use crate::claim_summary::{generate_customer_summary, summary_outcome};
use crate::coverage::{coverage_outcome, evaluate_coverage};
use crate::json::{
    add_item, items_model, json_text, members_model, put, text, text_array, texts, Json, JsonModel,
    Member,
};
use crate::liability::{classify_liability, liability_outcome};
use crate::mcp_error::{invalid_params, tool_not_found, McpError, McpErrorModel};
use crate::model::result_model;
use crate::text::{same_text, views};
use vstd::prelude::*;

verus! {

// ---------------------------------------------------------------------------------------
// Calling a tool
// ---------------------------------------------------------------------------------------

/// The result of a tool call: the answer, and the same answer as text.
pub open spec fn result_document(structured: JsonModel, text: Seq<char>) -> JsonModel {
    JsonModel::Object(
        map![
            "content"@ => JsonModel::Array(
                seq![
                    JsonModel::Object(
                        map![
                            "type"@ => JsonModel::Text("text"@),
                            "text"@ => JsonModel::Text(text),
                        ],
                    ),
                ],
            ),
            "structuredContent"@ => structured,
            "isError"@ => JsonModel::Bool(false),
        ],
    )
}

/// The arguments of a tool call, or null where they are no object.
pub open spec fn call_arguments(params: JsonModel) -> JsonModel {
    match params.get("arguments"@) {
        Some(arguments) => if arguments is Object {
            arguments
        } else {
            JsonModel::Null
        },
        None => JsonModel::Null,
    }
}

/// What the tool `name` answers.
pub open spec fn tool_outcome(name: Seq<char>, arguments: JsonModel) -> Result<
    JsonModel,
    McpErrorModel,
> {
    if name == "evaluateCoverage"@ {
        coverage_outcome(arguments)
    } else if name == "classifyLiability"@ {
        liability_outcome(arguments)
    } else if name == "scoreClaimRisk"@ {
        risk_outcome(arguments)
    } else if name == "listRequiredDocuments"@ {
        Ok(documents_document(arguments))
    } else if name == "generateCustomerSummary"@ {
        summary_outcome(arguments)
    } else {
        Err(tool_not_found(name))
    }
}

/// What `tools/call` answers.
pub open spec fn call_outcome(params: JsonModel) -> Result<JsonModel, McpErrorModel> {
    match params.text_at("name"@) {
        Some(name) => match tool_outcome(name, call_arguments(params)) {
            Ok(structured) => Ok(result_document(structured, json_text(structured))),
            Err(error) => Err(error),
        },
        None => Err(invalid_params("tools/call requires params.name"@)),
    }
}

/// The result of a tool call whose answer, as text, is `answer_text`.
pub fn result_with_text(structured: Json, answer_text: String) -> (result: Json)
    ensures
        result.model() == result_document(structured.model(), answer_text@),
{
    let mut content: Vec<Member> = Vec::new();
    put(&mut content, "type", text("text"));
    put(&mut content, "text", Json::Text(answer_text));
    let mut contents: Vec<Json> = Vec::new();
    let content = Json::Object(content);
    let ghost first = content.model();
    add_item(&mut contents, content);
    proof {
        assert(items_model(contents@) =~= seq![first]);
    }
    let mut members: Vec<Member> = Vec::new();
    put(&mut members, "content", Json::Array(contents));
    put(&mut members, "structuredContent", structured);
    put(&mut members, "isError", Json::Bool(false));
    Json::Object(members)
}

/// The result of a tool call.
pub fn tool_result(structured: Json) -> (result: Json)
    ensures
        result.model() == result_document(structured.model(), json_text(structured.model())),
{
    let answer_text = structured.to_text();
    result_with_text(structured, answer_text)
}

/// `tools/call`: calls the tool that the parameters name.
pub fn execute_tool_call(params: &Json) -> (outcome: Result<Json, McpError>)
    ensures
        result_model(outcome) == call_outcome(params.model()),
{
    let null = Json::Null;
    let name: &str = match params.text_at("name") {
        Some(name) => name,
        None => return Err(McpError::invalid_params("tools/call requires params.name")),
    };
    let arguments = match params.get("arguments") {
        Some(arguments) => if arguments.is_object() {
            arguments
        } else {
            &null
        },
        None => &null,
    };
    let structured = if same_text(name, "evaluateCoverage") {
        evaluate_coverage(arguments)
    } else if same_text(name, "classifyLiability") {
        classify_liability(arguments)
    } else if same_text(name, "scoreClaimRisk") {
        score_claim_risk(arguments)
    } else if same_text(name, "listRequiredDocuments") {
        list_required_documents(arguments)
    } else if same_text(name, "generateCustomerSummary") {
        generate_customer_summary(arguments)
    } else {
        Err(McpError::tool_not_found(name))
    };
    match structured {
        Ok(structured) => Ok(tool_result(structured)),
        Err(error) => Err(error),
    }
}

// ---------------------------------------------------------------------------------------
// Listing the tools
// ---------------------------------------------------------------------------------------

/// A tool as the list describes it.
pub open spec fn tool_document(
    name: Seq<char>,
    description: Seq<char>,
    input_schema: JsonModel,
) -> JsonModel {
    JsonModel::Object(
        map![
            "name"@ => JsonModel::Text(name),
            "description"@ => JsonModel::Text(description),
            "inputSchema"@ => input_schema,
        ],
    )
}

/// The schema of values of a JSON type.
pub open spec fn type_schema(kind: Seq<char>) -> JsonModel {
    JsonModel::Object(map!["type"@ => JsonModel::Text(kind)])
}

/// The schema of an object with the given properties, of which it has to have the required
/// ones.
pub open spec fn object_schema(
    required: Seq<Seq<char>>,
    properties: Map<Seq<char>, JsonModel>,
) -> JsonModel {
    if required.len() > 0 {
        JsonModel::Object(
            map![
                "type"@ => JsonModel::Text("object"@),
                "required"@ => texts(required),
                "properties"@ => JsonModel::Object(properties),
            ],
        )
    } else {
        JsonModel::Object(
            map![
                "type"@ => JsonModel::Text("object"@),
                "properties"@ => JsonModel::Object(properties),
            ],
        )
    }
}

/// The names of the tools, in the order of the list.
pub open spec fn tool_names() -> Seq<Seq<char>> {
    seq![
        "evaluateCoverage"@,
        "classifyLiability"@,
        "scoreClaimRisk"@,
        "listRequiredDocuments"@,
        "generateCustomerSummary"@,
    ]
}

/// The arguments that the tools ask for, in the order of the list.
pub open spec fn required_arguments() -> Seq<Seq<Seq<char>>> {
    seq![
        seq!["claim"@, "policies"@, "vehicle"@],
        seq!["claim"@],
        seq!["claim"@, "priorClaims"@],
        Seq::empty(),
        seq!["claim"@],
    ]
}

/// The list of tools.
pub open spec fn tool_catalogue() -> Seq<JsonModel> {
    let object = type_schema("object"@);
    seq![
        tool_document(
            tool_names()[0],
            "Evaluate policy and vehicle coverage for an insurance claim."@,
            object_schema(
                required_arguments()[0],
                map!["claim"@ => object, "policies"@ => object, "vehicle"@ => object],
            ),
        ),
        tool_document(
            tool_names()[1],
            "Classify liability from first-notice-of-loss claim facts."@,
            object_schema(required_arguments()[1], map!["claim"@ => object]),
        ),
        tool_document(
            tool_names()[2],
            "Score claim risk and determine adjuster or SIU review needs."@,
            object_schema(
                required_arguments()[2],
                map![
                    "claim"@ => object,
                    "priorClaims"@ => object,
                    "coverage"@ => object,
                    "liability"@ => object,
                ],
            ),
        ),
        tool_document(
            tool_names()[3],
            "List documents needed for the recommended claim path."@,
            object_schema(
                required_arguments()[3],
                map![
                    "claim"@ => object,
                    "recommendedPath"@ => type_schema("string"@),
                    "triage"@ => object,
                ],
            ),
        ),
        tool_document(
            tool_names()[4],
            "Generate a deterministic customer-facing claim summary."@,
            object_schema(
                required_arguments()[4],
                map![
                    "claim"@ => object,
                    "coverageReview"@ => object,
                    "triage"@ => object,
                    "documents"@ => object,
                    "settlement"@ => object,
                ],
            ),
        ),
    ]
}

/// A tool as the list describes it.
pub fn tool(name: &str, description: &str, input_schema: Json) -> (document: Json)
    ensures
        document.model() == tool_document(name@, description@, input_schema.model()),
{
    let mut members: Vec<Member> = Vec::new();
    put(&mut members, "name", text(name));
    put(&mut members, "description", text(description));
    put(&mut members, "inputSchema", input_schema);
    Json::Object(members)
}

/// Adds a property of a JSON type.
fn put_property(properties: &mut Vec<Member>, name: &str, kind: &str)
    ensures
        members_model(final(properties)@) == members_model(old(properties)@).insert(
            name@,
            type_schema(kind@),
        ),
{
    let mut members: Vec<Member> = Vec::new();
    put(&mut members, "type", text(kind));
    put(properties, name, Json::Object(members));
}

/// The schema of an object.
fn schema(required: &Vec<String>, properties: Vec<Member>) -> (document: Json)
    ensures
        document.model() == object_schema(views(required@), members_model(properties@)),
{
    let mut members: Vec<Member> = Vec::new();
    put(&mut members, "type", text("object"));
    if required.len() > 0 {
        put(&mut members, "required", text_array(required));
    }
    put(&mut members, "properties", Json::Object(properties));
    Json::Object(members)
}

/// The list of tools.
pub fn tool_definitions() -> (tools: Vec<Json>)
    ensures
        items_model(tools@) == tool_catalogue(),
{
    let mut tools: Vec<Json> = Vec::new();

    let mut required: Vec<String> = Vec::new();
    required.push("claim".to_string());
    required.push("policies".to_string());
    required.push("vehicle".to_string());
    proof {
        assert(views(required@) =~= required_arguments()[0]);
    }
    let mut properties: Vec<Member> = Vec::new();
    put_property(&mut properties, "claim", "object");
    put_property(&mut properties, "policies", "object");
    put_property(&mut properties, "vehicle", "object");
    add_item(
        &mut tools,
        tool(
            "evaluateCoverage",
            "Evaluate policy and vehicle coverage for an insurance claim.",
            schema(&required, properties),
        ),
    );

    let mut required: Vec<String> = Vec::new();
    required.push("claim".to_string());
    proof {
        assert(views(required@) =~= required_arguments()[1]);
    }
    let mut properties: Vec<Member> = Vec::new();
    put_property(&mut properties, "claim", "object");
    add_item(
        &mut tools,
        tool(
            "classifyLiability",
            "Classify liability from first-notice-of-loss claim facts.",
            schema(&required, properties),
        ),
    );

    let mut required: Vec<String> = Vec::new();
    required.push("claim".to_string());
    required.push("priorClaims".to_string());
    proof {
        assert(views(required@) =~= required_arguments()[2]);
    }
    let mut properties: Vec<Member> = Vec::new();
    put_property(&mut properties, "claim", "object");
    put_property(&mut properties, "priorClaims", "object");
    put_property(&mut properties, "coverage", "object");
    put_property(&mut properties, "liability", "object");
    add_item(
        &mut tools,
        tool(
            "scoreClaimRisk",
            "Score claim risk and determine adjuster or SIU review needs.",
            schema(&required, properties),
        ),
    );

    let required: Vec<String> = Vec::new();
    proof {
        assert(views(required@) =~= required_arguments()[3]);
    }
    let mut properties: Vec<Member> = Vec::new();
    put_property(&mut properties, "claim", "object");
    put_property(&mut properties, "recommendedPath", "string");
    put_property(&mut properties, "triage", "object");
    add_item(
        &mut tools,
        tool(
            "listRequiredDocuments",
            "List documents needed for the recommended claim path.",
            schema(&required, properties),
        ),
    );

    let mut required: Vec<String> = Vec::new();
    required.push("claim".to_string());
    proof {
        assert(views(required@) =~= required_arguments()[4]);
    }
    let mut properties: Vec<Member> = Vec::new();
    put_property(&mut properties, "claim", "object");
    put_property(&mut properties, "coverageReview", "object");
    put_property(&mut properties, "triage", "object");
    put_property(&mut properties, "documents", "object");
    put_property(&mut properties, "settlement", "object");
    add_item(
        &mut tools,
        tool(
            "generateCustomerSummary",
            "Generate a deterministic customer-facing claim summary.",
            schema(&required, properties),
        ),
    );
    proof {
        assert(items_model(tools@) =~= tool_catalogue());
    }
    tools
}

} // verus!
