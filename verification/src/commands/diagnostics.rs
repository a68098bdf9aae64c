//! The doctor's report on integrations.

use crate::commands::run::CodingAgent;
use crate::error::{CliError, Failure};
use crate::json::{array_holds, array_view, json_object, object_of, pairs_view, Json, JsonView};
use crate::ordered::inserted;
use vstd::prelude::*;
use vstd::string::*;

verus! {

/// The agents whose integrations the doctor looks at: those that were asked for, or where all were, those of
/// them that are installed. There has to be one; `names` says of which agents there could be.
pub fn agents_to_check(candidates: Vec<CodingAgent>, all: bool, installed: Vec<CodingAgent>, names: &str) -> (r: Result<
    Vec<CodingAgent>,
    CliError,
>)
    ensures
        ({
            let agents = if all {
                installed@
            } else {
                candidates@
            };
            if agents.len() == 0 {
                r is Err && r->Err_0.view() == Failure::Install(
                    "no installed "@ + names@ + " integration state was found"@,
                )
            } else {
                r is Ok && r->Ok_0@ == agents
            }
        }),
{
    let agents = if all {
        installed
    } else {
        candidates
    };
    if agents.len() == 0 {
        Err(CliError::Install("no installed ".to_owned().concat(names).concat(" integration state was found")))
    } else {
        Ok(agents)
    }
}

/// A report that says that all is well.
pub open spec fn is_ok(report: JsonView) -> bool {
    report.get("ok"@) == Some(JsonView::Bool(true))
}

/// A report with the version of its form. What is no object stays as it is.
pub open spec fn with_schema_of(report: JsonView) -> JsonView {
    match report {
        JsonView::Object(members) => JsonView::Object(inserted(members, "schema_version"@, JsonView::Unsigned(1))),
        other => other,
    }
}

/// A report with the version of its form.
pub fn with_schema(report: Json) -> (r: Json)
    ensures
        r@ == with_schema_of(report@),
{
    match report {
        Json::Object(members) => {
            let mut members = members;
            members.insert("schema_version".to_owned(), Json::Unsigned(1));
            Json::Object(members)
        },
        other => other,
    }
}

/// What the doctor prints: a single report as it is, several in a list.
pub open spec fn doctor_json(reports: Seq<JsonView>) -> JsonView {
    if reports.len() > 1 {
        object_of(seq![("schema_version"@, JsonView::Unsigned(1)), ("plugins"@, JsonView::Array(reports))])
    } else {
        with_schema_of(reports[0])
    }
}

/// What the doctor prints, and whether all is well.
pub fn doctor_output(reports: Vec<Json>) -> (r: (Json, bool))
    requires
        reports@.len() > 0,
    ensures
        r.0@ == doctor_json(array_view(reports@)),
        r.1 == (forall|i: int| 0 <= i < reports@.len() ==> is_ok(#[trigger] array_view(reports@)[i])),
{
    let ghost all = array_view(reports@);
    let mut ready = true;
    let mut i: usize = 0;
    while i < reports.len()
        invariant
            i <= reports.len(),
            all == array_view(reports@),
            ready == (forall|j: int| 0 <= j < i ==> is_ok(#[trigger] all[j])),
        decreases reports.len() - i,
    {
        assert(all[i as int] == reports@[i as int]@);
        let fine = match reports[i].get("ok") {
            Some(Json::Bool(ok)) => *ok,
            _ => false,
        };
        assert(fine == is_ok(all[i as int]));
        ready = ready && fine;
        i += 1;
    }
    let mut reports = reports;
    if reports.len() > 1 {
        proof {
            array_holds(reports);
        }
        let pairs: Vec<(&str, Json)> = vec![("schema_version", Json::Unsigned(1)), ("plugins", Json::Array(reports))];
        assert(pairs_view(pairs@) =~= seq![
            ("schema_version"@, JsonView::Unsigned(1)),
            ("plugins"@, JsonView::Array(all)),
        ]);
        (json_object(pairs), ready)
    } else {
        (with_schema(reports.remove(0)), ready)
    }
}

} // verus!
