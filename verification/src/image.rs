//! The picture for a chapter, drawn by a script.

use vstd::prelude::*;
use vstd::string::*;
use crate::text::views_of;

verus! {

/// The runner of the script.
pub const UV_CMD: &'static str = "uv";

/// The script that draws.
pub const IMAGE_GEN_SCRIPT: &'static str = "src/scripts/image_gen.py";

/// The arguments that make the runner draw `prompt` into `output_path`.
pub open spec fn script_arguments(prompt: Seq<char>, output_path: Seq<char>) -> Seq<Seq<char>> {
    seq!["run"@, IMAGE_GEN_SCRIPT@, "--prompt"@, prompt, "--output"@, output_path]
}

/// Draws pictures by running the script.
#[derive(Clone, Copy, Debug)]
pub struct PythonImageGenerator;

impl PythonImageGenerator {
    pub fn new() -> (g: PythonImageGenerator) {
        PythonImageGenerator
    }

    /// The arguments that make the runner draw `prompt` into `output_path`.
    pub fn arguments(&self, prompt: &str, output_path: &str) -> (args: Vec<String>)
        ensures
            views_of(args@) == script_arguments(prompt@, output_path@),
    {
        let mut args: Vec<String> = Vec::new();
        args.push(String::from_str("run"));
        args.push(String::from_str(IMAGE_GEN_SCRIPT));
        args.push(String::from_str("--prompt"));
        args.push(String::from_str(prompt));
        args.push(String::from_str("--output"));
        args.push(String::from_str(output_path));
        assert(views_of(args@) =~= script_arguments(prompt@, output_path@));
        args
    }
}

} // verus!
