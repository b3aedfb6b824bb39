//! The parts of converting an FLIST dump to JSON that compute: the names of
//! the temporary files, the shell pipeline that turns the XML file into
//! JSON, and the text used when that pipeline left no output. Writing the
//! XML, running the pipeline and reading its output are the caller's.
use rand::Rng;
use vstd::prelude::*;

use crate::fields::text_with_number;
use crate::number::nat_str;

verus! {

/// `rand::thread_rng().gen_range(0..bound)`: a number drawn at random below
/// `bound`. The range is not empty, so the call does not panic; which
/// number comes is left open.
#[verifier::external_body]
fn random_below(bound: u64) -> (r: u64)
    requires
        0 < bound,
    ensures
        r < bound,
{
    rand::thread_rng().gen_range(0..bound)
}

/// The temporary file that holds the XML of conversion number `n`.
pub open spec fn json_input_name(n: nat) -> Seq<char> {
    "test_input_"@ + nat_str(n)
}

/// The temporary file that receives the JSON of conversion number `n`.
pub open spec fn json_output_name(n: nat) -> Seq<char> {
    json_input_name(n) + ".out"@
}

/// The temporary files of conversion number `n`: the XML file, then the
/// JSON file.
pub fn json_files(n: u64) -> (r: (String, String))
    ensures
        r.0@ == json_input_name(n as nat),
        r.1@ == json_output_name(n as nat),
{
    let input = text_with_number("test_input_", n, "");
    let output = text_with_number("test_input_", n, ".out");
    proof {
        reveal_strlit("");
        assert(input@ =~= json_input_name(n as nat));
    }
    (input, output)
}

/// The temporary files of a new conversion, numbered at random below 1000.
pub fn json_temp_files() -> (r: (String, String))
    ensures
        exists|n: nat|
            n < 1000 && r.0@ == #[trigger] json_input_name(n) && r.1@ == json_output_name(n),
{
    let n = random_below(1000);
    let r = json_files(n);
    assert(r.0@ == json_input_name(n as nat));
    r
}

/// The shell pipeline that turns the XML in `input` into JSON, written to
/// `output` (and echoed): `xml2json`, then `jq` replacing each object that
/// has a `$t` member by that member, then `sed` renaming `elem` keys to
/// `_elem`.
pub open spec fn json_pipeline(input: Seq<char>, output: Seq<char>) -> Seq<char> {
    "cat "@ + input
        + " | xml2json 2>/dev/null | jq 'walk(if type == \"object\" and has(\"$t\") then . |= .[\"$t\"] else . end)' | sed 's/\"elem\": \"\\([^\"]*\\)\",/\"_elem\": \"\\1\",/g' | tee "@
        + output
}

/// Build `json_pipeline(input, output)`.
pub fn json_pipeline_command(input: &str, output: &str) -> (r: String)
    ensures
        r@ == json_pipeline(input@, output@),
{
    let mut r = String::from_str("cat ");
    r.append(input);
    r.append(
        " | xml2json 2>/dev/null | jq 'walk(if type == \"object\" and has(\"$t\") then . |= .[\"$t\"] else . end)' | sed 's/\"elem\": \"\\([^\"]*\\)\",/\"_elem\": \"\\1\",/g' | tee ",
    );
    r.append(output);
    r
}

/// The JSON of a conversion: what the pipeline wrote, or, where its output
/// could not be read, an error object saying that `xml2json` is missing.
pub fn json_or_fallback(read: Option<String>) -> (r: String)
    ensures
        match read {
            Some(s) => r@ == s@,
            None => r@ == "{\"error\": \"xml2json command not available\"}"@,
        },
{
    match read {
        Some(s) => s,
        None => String::from_str("{\"error\": \"xml2json command not available\"}"),
    }
}

} // verus!
