//! Console message composition. The library builds the exact text of
//! the harness's banner and progress lines; the driver colors and
//! prints them.

use vstd::prelude::*;
use crate::text;

verus! {

/// The banner's horizontal rule, indented as the test banners print
/// it.
pub open spec fn spec_indented_rule() -> Seq<char> {
    "    ============================================="@
}

/// The banner's horizontal rule.
pub open spec fn spec_banner_rule() -> Seq<char> {
    "============================================="@
}

/// One progress line: a blank line, the bracketed label and the
/// message, and a trailing blank line.
pub open spec fn spec_output_text(label: Seq<char>, msg: Seq<char>) -> Seq<char> {
    "\n  ["@ + label + "]: "@ + msg + "\n\n"@
}

/// Compose one progress line under the given label.
pub fn output_text(label: &str, msg: &str) -> (r: String)
    ensures
        r@ == spec_output_text(label@, msg@),
{
    let s = String::from_str("\n  [");
    let s = s.concat(label);
    let s = s.concat("]: ");
    let s = s.concat(msg);
    s.concat("\n\n")
}

/// Compose the title banner of a run: the rule, the harness's name,
/// the program under test, and the rule again.
pub fn title_lines(program_id: &str) -> (r: Vec<String>)
    ensures
        r@.len() == 4,
        r@[0]@ == spec_banner_rule(),
        r@[1]@ == "    Core BPF Migration Test"@,
        r@[2]@ == "    Program: "@ + program_id@,
        r@[3]@ == spec_banner_rule(),
{
    let mut r: Vec<String> = Vec::new();
    r.push(String::from_str("============================================="));
    r.push(String::from_str("    Core BPF Migration Test"));
    let line = String::from_str("    Program: ");
    r.push(line.concat(program_id));
    r.push(String::from_str("============================================="));
    r
}

/// How much of a feature's description the stub-test banner shows.
pub const TITLE_DESCRIPTION_LIMIT: usize = 160;

fn indented_rule() -> (r: String)
    ensures
        r@ == spec_indented_rule(),
{
    String::from_str("    =============================================")
}

fn labeled_line(label: &str, value: &str) -> (r: String)
    ensures
        r@ == label@ + value@,
{
    let s = String::from_str(label);
    s.concat(value)
}

/// Compose the stub test's banner: the feature under test, described
/// by at most the first hundred and sixty characters of its
/// description, and the staged buffer.
pub fn title_stub_test(feature_description: &str, feature_id: &str, buffer_address: &str) -> (r:
    Vec<String>)
    ensures
        r@.len() == 12,
        r@[0]@ == ""@,
        r@[1]@ == spec_indented_rule(),
        r@[2]@ == "    Core BPF Migration Test: Stub Test"@,
        r@[3]@ == ""@,
        r@[4]@ == "    Description   : "@ + (if feature_description@.len() <= 160 {
            feature_description@
        } else {
            feature_description@.take(160)
        }),
        r@[5]@ == ""@,
        r@[6]@ == "    Feature ID    : "@ + feature_id@,
        r@[7]@ == ""@,
        r@[8]@ == "    Buffer Address: "@ + buffer_address@,
        r@[9]@ == spec_indented_rule(),
        r@[10]@ == ""@,
        r@[11]@ == ""@,
{
    proof {
        reveal_strlit("");
    }
    let description = text::truncate_chars(feature_description, TITLE_DESCRIPTION_LIMIT);
    let mut r: Vec<String> = Vec::new();
    r.push(String::new());
    r.push(indented_rule());
    r.push(String::from_str("    Core BPF Migration Test: Stub Test"));
    r.push(String::new());
    r.push(labeled_line("    Description   : ", description.as_str()));
    r.push(String::new());
    r.push(labeled_line("    Feature ID    : ", feature_id));
    r.push(String::new());
    r.push(labeled_line("    Buffer Address: ", buffer_address));
    r.push(indented_rule());
    r.push(String::new());
    r.push(String::new());
    r
}

/// Compose the fixtures test's banner: the staged buffer and the
/// cluster it is cloned from.
pub fn title_fixtures_test(cluster: &str, buffer_address: &str) -> (r: Vec<String>)
    ensures
        r@.len() == 10,
        r@[0]@ == ""@,
        r@[1]@ == spec_indented_rule(),
        r@[2]@ == "    Core BPF Migration Test: Fixtures Test"@,
        r@[3]@ == ""@,
        r@[4]@ == "    Buffer Address: "@ + buffer_address@,
        r@[5]@ == ""@,
        r@[6]@ == "    Cloning From  : "@ + cluster@,
        r@[7]@ == spec_indented_rule(),
        r@[8]@ == ""@,
        r@[9]@ == ""@,
{
    proof {
        reveal_strlit("");
    }
    let mut r: Vec<String> = Vec::new();
    r.push(String::new());
    r.push(indented_rule());
    r.push(String::from_str("    Core BPF Migration Test: Fixtures Test"));
    r.push(String::new());
    r.push(labeled_line("    Buffer Address: ", buffer_address));
    r.push(String::new());
    r.push(labeled_line("    Cloning From  : ", cluster));
    r.push(indented_rule());
    r.push(String::new());
    r.push(String::new());
    r
}

/// Compose the conformance test's banner.
pub fn title_conformance_test(cluster: &str, buffer_address: &str) -> (r: Vec<String>)
    ensures
        r@.len() == 10,
        r@[0]@ == ""@,
        r@[1]@ == spec_indented_rule(),
        r@[2]@ == "    Core BPF Migration Test: Conformance Test"@,
        r@[3]@ == ""@,
        r@[4]@ == "    Buffer Address: "@ + buffer_address@,
        r@[5]@ == ""@,
        r@[6]@ == "    Cloning From  : "@ + cluster@,
        r@[7]@ == spec_indented_rule(),
        r@[8]@ == ""@,
        r@[9]@ == ""@,
{
    proof {
        reveal_strlit("");
    }
    let mut r: Vec<String> = Vec::new();
    r.push(String::new());
    r.push(indented_rule());
    r.push(String::from_str("    Core BPF Migration Test: Conformance Test"));
    r.push(String::new());
    r.push(labeled_line("    Buffer Address: ", buffer_address));
    r.push(String::new());
    r.push(labeled_line("    Cloning From  : ", cluster));
    r.push(indented_rule());
    r.push(String::new());
    r.push(String::new());
    r
}

} // verus!
