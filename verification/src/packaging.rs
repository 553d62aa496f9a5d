//! The decisions taken when the sandbox is packaged as a binary module:
//! how it is built, how it is optimised, and how sizes are reported.

use brotli::enc::backward_references::BrotliEncoderParams;
use brotli::enc::BrotliCompress;
use vstd::prelude::*;

verus! {

/// The compression quality at which the size of a packaged module is
/// measured.
pub const REPORT_QUALITY: i32 = 9;

/// How the optimiser is to treat a module.
pub struct OptimizationPlan {
    /// How hard to shrink the code.
    pub shrink_level: u32,
    /// How hard to optimise for speed.
    pub optimization_level: u32,
    /// Whether debug information is kept.
    pub debug_info: bool,
    /// The passes to run before the default ones, in order.
    pub passes: Vec<&'static str>,
}

/// The optimisation level of a build: 3 for a release, and otherwise 1
/// where the stack-rewriting pass runs, which needs it, and 0 where not.
pub open spec fn plan_level(release: bool, asyncify: bool) -> u32 {
    if release {
        3
    } else if asyncify {
        1
    } else {
        0
    }
}

/// The passes of a build: the stack-rewriting pass where it is asked for,
/// then the removal of debug information for a release.
pub open spec fn plan_passes(release: bool, asyncify: bool) -> Seq<Seq<char>> {
    (if asyncify {
        seq!["asyncify"@]
    } else {
        Seq::empty()
    }) + (if release {
        seq!["strip-debug"@]
    } else {
        Seq::empty()
    })
}

/// The names of a list of passes.
pub open spec fn pass_names(passes: Seq<&'static str>) -> Seq<Seq<char>> {
    Seq::new(passes.len(), |i: int| passes[i]@)
}

/// How the optimiser is to treat the module of a build.
pub fn optimization_plan(release: bool, asyncify: bool) -> (plan: OptimizationPlan)
    ensures
        plan.shrink_level == 0,
        plan.optimization_level == plan_level(release, asyncify),
        plan.debug_info == !release,
        pass_names(plan.passes@) == plan_passes(release, asyncify),
{
    let mut optimization_level: u32 = if release {
        3
    } else {
        0
    };
    let mut passes: Vec<&'static str> = Vec::new();
    if asyncify {
        passes.push("asyncify");
        if optimization_level < 1 {
            optimization_level = 1;
        }
    }
    if release {
        passes.push("strip-debug");
    }
    proof {
        assert(pass_names(passes@) =~= plan_passes(release, asyncify));
    }
    OptimizationPlan { shrink_level: 0, optimization_level, debug_info: !release, passes }
}

/// The directory name of a build mode.
pub open spec fn build_mode_spec(release: bool) -> Seq<char> {
    if release {
        "release"@
    } else {
        "debug"@
    }
}

/// The directory name of a build mode, under which the compiler leaves the
/// module.
pub fn build_mode(release: bool) -> (mode: &'static str)
    ensures
        mode@ == build_mode_spec(release),
{
    if release {
        "release"
    } else {
        "debug"
    }
}

/// The arguments that build the package `name` for the sandbox's target.
pub open spec fn build_arguments_spec(name: Seq<char>, release: bool) -> Seq<Seq<char>> {
    seq!["build"@, "--target"@, "wasm32-wasi"@, "-p"@, name] + (if release {
        seq!["--release"@]
    } else {
        Seq::empty()
    })
}

/// The texts of a list of arguments.
pub open spec fn argument_texts(arguments: Seq<String>) -> Seq<Seq<char>> {
    Seq::new(arguments.len(), |i: int| arguments[i]@)
}

/// The arguments that build the package `name` for the sandbox's target.
pub fn build_arguments(name: &str, release: bool) -> (arguments: Vec<String>)
    ensures
        argument_texts(arguments@) == build_arguments_spec(name@, release),
{
    let mut arguments: Vec<String> = Vec::new();
    arguments.push(String::from_str("build"));
    arguments.push(String::from_str("--target"));
    arguments.push(String::from_str("wasm32-wasi"));
    arguments.push(String::from_str("-p"));
    arguments.push(String::from_str(name));
    if release {
        arguments.push(String::from_str("--release"));
    }
    proof {
        assert(argument_texts(arguments@) =~= build_arguments_spec(name@, release));
    }
    arguments
}

/// The unit in which a size is reported.
#[derive(Clone, Copy, Debug, PartialEq, Eq, Structural)]
pub enum SizeUnit {
    Bytes,
    Kilobytes,
    Megabytes,
}

/// The unit in which a size of `bytes` is reported: the largest of which it
/// holds more than one.
pub open spec fn size_unit_spec(bytes: int) -> SizeUnit {
    if bytes > 1048576 {
        SizeUnit::Megabytes
    } else if bytes > 1024 {
        SizeUnit::Kilobytes
    } else {
        SizeUnit::Bytes
    }
}

/// The unit in which a size of `bytes` is reported.
pub fn size_unit(bytes: usize) -> (unit: SizeUnit)
    ensures
        unit == size_unit_spec(bytes as int),
{
    if bytes > 1024 * 1024 {
        SizeUnit::Megabytes
    } else if bytes > 1024 {
        SizeUnit::Kilobytes
    } else {
        SizeUnit::Bytes
    }
}

impl SizeUnit {
    /// The number of bytes in one unit.
    pub open spec fn spec_bytes_per_unit(self) -> int {
        match self {
            SizeUnit::Bytes => 1,
            SizeUnit::Kilobytes => 1024,
            SizeUnit::Megabytes => 1048576,
        }
    }

    /// The letters written behind a size in this unit.
    pub open spec fn spec_suffix(self) -> Seq<char> {
        match self {
            SizeUnit::Bytes => "B"@,
            SizeUnit::Kilobytes => "KB"@,
            SizeUnit::Megabytes => "MB"@,
        }
    }

    /// The number of bytes in one unit.
    pub fn bytes_per_unit(self) -> (bytes: usize)
        ensures
            bytes == self.spec_bytes_per_unit(),
    {
        match self {
            SizeUnit::Bytes => 1,
            SizeUnit::Kilobytes => 1024,
            SizeUnit::Megabytes => 1024 * 1024,
        }
    }

    /// The letters written behind a size in this unit.
    pub fn suffix(self) -> (letters: &'static str)
        ensures
            letters@ == self.spec_suffix(),
    {
        match self {
            SizeUnit::Bytes => "B",
            SizeUnit::Kilobytes => "KB",
            SizeUnit::Megabytes => "MB",
        }
    }
}

/// What the brotli encoder makes of `data` at the given quality, every other
/// parameter at its default: the bytes it writes, or the cause for which it
/// refuses. The encoder is built with its table-driven cost estimates
/// (`portable-float`), which keep the platform's maths library out of it:
/// the same input has the same outcome on every target.
pub uninterp spec fn brotli_outcome(data: Seq<u8>, quality: int) -> Result<Seq<u8>, Seq<char>>;

/// An encoder's answer as contracts see it.
pub open spec fn outcome_view(out: Result<Vec<u8>, String>) -> Result<Seq<u8>, Seq<char>> {
    match out {
        Ok(bytes) => Ok(bytes@),
        Err(cause) => Err(cause@),
    }
}

/// The size to report for an outcome of the encoder: the number of bytes of
/// the encoding, or the encoder's cause as it came.
pub open spec fn reported_size(outcome: Result<Seq<u8>, Seq<char>>) -> Result<nat, Seq<char>> {
    match outcome {
        Ok(bytes) => Ok(bytes.len()),
        Err(cause) => Err(cause),
    }
}

/// A reported size as contracts see it.
pub open spec fn size_view(size: Result<usize, String>) -> Result<nat, Seq<char>> {
    match size {
        Ok(n) => Ok(n as nat),
        Err(cause) => Err(cause@),
    }
}

/// `brotli::enc::BrotliCompress`, reading `data` from memory and writing to
/// memory, with `BrotliEncoderParams::default()` but for the quality. Each
/// call works on a fresh encoder state and draws on nothing but its input
/// and its parameters, so what comes back, the bytes written or the text of
/// the encoder's error, is the outcome that these two have. Nothing is
/// claimed of which inputs the encoder accepts.
#[verifier::external_body]
fn brotli_encode(data: &[u8], quality: i32) -> (out: Result<Vec<u8>, String>)
    requires
        0 <= quality <= 11,
    ensures
        outcome_view(out) == brotli_outcome(data@, quality as int),
{
    let mut input = std::io::Cursor::new(data);
    let mut bytes: Vec<u8> = Vec::with_capacity(data.len());
    let params = BrotliEncoderParams { quality, ..Default::default() };
    match BrotliCompress(&mut input, &mut bytes, &params) {
        Ok(_) => Ok(bytes),
        Err(e) => Err(e.to_string()),
    }
}

/// The size to report for an encoder's answer: the number of its bytes, or
/// the encoder's failure as it came.
pub fn compressed_size(encoded: Result<Vec<u8>, String>) -> (size: Result<usize, String>)
    ensures
        size_view(size) == reported_size(outcome_view(encoded)),
{
    match encoded {
        Ok(bytes) => Ok(bytes.len()),
        Err(e) => Err(e),
    }
}

/// The size of `data` once compressed at the reporting quality: the length
/// of what the encoder writes for it, or the cause for which the encoder
/// refuses it.
pub fn brotli_compress(data: &[u8]) -> (size: Result<usize, String>)
    ensures
        size_view(size) == reported_size(brotli_outcome(data@, REPORT_QUALITY as int)),
{
    compressed_size(brotli_encode(data, REPORT_QUALITY))
}

} // verus!
