//! From a shader module to the kernel source that a compute client runs.
//!
//! A module is put through naga's full validation and written out as WGSL.
//! A module that fails either step is a defect of the code that generated
//! it, not a condition to recover from: such a module is not a legal
//! argument of [`module_to_compiled`].

use crate::dispatch::CubeDim;
use crate::kernel::{shader_defines, texts, KernelVariant};
use vstd::prelude::*;

verus! {

#[verifier::external_type_specification]
#[verifier::external_body]
pub struct ExModule(naga::Module);

#[verifier::external_type_specification]
#[verifier::external_body]
pub struct ExModuleInfo(naga::valid::ModuleInfo);

/// What naga's validator, run with every validation flag and every
/// capability, answers for a module: `Some` of its analysis where it accepts
/// the module, `None` in every other case.
pub uninterp spec fn validation(module: naga::Module) -> Option<naga::valid::ModuleInfo>;

/// The WGSL text that naga's writer gives for a module and the analysis
/// named by [`validation`]: `Some` of the text where the writer returns it,
/// `None` in every other case.
pub uninterp spec fn wgsl_source(module: naga::Module) -> Option<Seq<char>>;

/// Whether a module passes full validation and is written out as text.
pub open spec fn compiles(module: naga::Module) -> bool {
    validation(module) is Some && wgsl_source(module) is Some
}

/// Calls `naga::valid::Validator::validate` on a fresh validator with
/// `ValidationFlags::all()` and `Capabilities::all()`. The validator
/// answers a module it rejects with an error, and may give up on one that
/// is not well formed; the contract leaves both out and gives the accepted
/// module's analysis its name.
#[verifier::external_body]
fn validate(module: &naga::Module) -> (info: naga::valid::ModuleInfo)
    requires
        validation(*module) is Some,
    ensures
        validation(*module) == Some(info),
{
    naga::valid::Validator::new(
        naga::valid::ValidationFlags::all(),
        naga::valid::Capabilities::all(),
    ).validate(module).unwrap()
}

/// Calls `naga::back::wgsl::write_string` with `WriterFlags::empty()`. The
/// writer reports an error for what WGSL cannot express, such as overrides,
/// and gives up on ray queries; the contract leaves such modules out, asks
/// for the analysis of this very module, and gives the text its name.
#[verifier::external_body]
fn write_wgsl(module: &naga::Module, info: &naga::valid::ModuleInfo) -> (source: String)
    requires
        validation(*module) == Some(*info),
        wgsl_source(*module) is Some,
    ensures
        wgsl_source(*module) == Some(source@),
{
    naga::back::wgsl::write_string(module, info, naga::back::wgsl::WriterFlags::empty()).expect(
        "failed to convert naga module to source",
    )
}

/// A kernel ready to be handed to the compute client.
#[derive(Debug)]
pub struct CompiledKernel {
    /// The shader source text.
    pub source: String,
    /// The workgroup size the source is written for.
    pub cube_dim: CubeDim,
    /// Shared memory the kernel asks for; a hint that this layer leaves at zero.
    pub shared_mem_bytes: usize,
}

/// The kernel that a source text and a workgroup size make.
pub open spec fn compiled(source: Seq<char>, workgroup_size: Seq<u32>, kernel: CompiledKernel)
    -> bool {
    &&& kernel.source@ == source
    &&& kernel.cube_dim == (CubeDim {
        x: workgroup_size[0],
        y: workgroup_size[1],
        z: workgroup_size[2],
    })
    &&& kernel.shared_mem_bytes == 0
}

impl CompiledKernel {
    /// Pairs a source text with the workgroup size of its module and asks
    /// for no shared memory.
    pub fn new(source: String, workgroup_size: [u32; 3]) -> (kernel: CompiledKernel)
        ensures
            compiled(source@, workgroup_size@, kernel),
    {
        CompiledKernel {
            source,
            cube_dim: CubeDim {
                x: workgroup_size[0],
                y: workgroup_size[1],
                z: workgroup_size[2],
            },
            shared_mem_bytes: 0,
        }
    }
}

/// Validates a shader module and writes it out as source text for a kernel
/// of the given workgroup size.
///
/// Validation is naga's full validation, which catches a module that is
/// structurally invalid. A module that does not pass it, or that cannot be
/// written, is a defect of the code that generated it: such a module is not
/// a legal argument.
pub fn module_to_compiled(module: naga::Module, workgroup_size: [u32; 3]) -> (kernel:
    CompiledKernel)
    requires
        compiles(module),
    ensures
        compiled(wgsl_source(module).unwrap(), workgroup_size@, kernel),
{
    let info = validate(&module);
    let source: String = write_wgsl(&module, &info);
    CompiledKernel::new(source, workgroup_size)
}

impl KernelVariant {
    /// Runs the kernel's source generator on the defines of this variant.
    pub fn source<F: FnOnce(Vec<String>) -> naga::Module>(&self, generator: F) -> (module:
        naga::Module)
        requires
            forall|defs: Vec<String>|
                texts(defs@) == shader_defines(self@) ==> generator.requires((defs,)),
        ensures
            exists|defs: Vec<String>|
                texts(defs@) == shader_defines(self@) && generator.ensures((defs,), module),
    {
        let defs: Vec<String> = self.shader_defs();
        generator(defs)
    }

    /// Compiles the variant: the generator turns the defines into a module,
    /// which is validated and written out for the kernel's workgroup size.
    /// The generator has to give modules that compile.
    pub fn compile<F: FnOnce(Vec<String>) -> naga::Module>(&self, generator: F) -> (kernel:
        CompiledKernel)
        requires
            forall|defs: Vec<String>|
                texts(defs@) == shader_defines(self@) ==> generator.requires((defs,)),
            forall|defs: Vec<String>, module: naga::Module|
                texts(defs@) == shader_defines(self@) && generator.ensures((defs,), module)
                    ==> compiles(module),
        ensures
            exists|defs: Vec<String>, module: naga::Module|
                texts(defs@) == shader_defines(self@) && generator.ensures((defs,), module)
                    && compiled(wgsl_source(module).unwrap(), self@.workgroup_size, kernel),
    {
        let module = self.source(generator);
        module_to_compiled(module, self.workgroup_size())
    }
}

} // verus!
