//! Which of the kernel's portable layers serves a build target.

use vstd::prelude::*;
use vstd::string::StringExecFns;

verus! {

/// Whether two strings hold the same characters.
fn same(a: &str, b: &str) -> (eq: bool)
    ensures
        eq == (a@ == b@),
{
    a.to_owned() == b.to_owned()
}

/// The directory of the kernel's portable layer for a build target, relative
/// to the directory of all portable layers, by the target's triple,
/// architecture, operating system and C library; none for a target that has
/// no layer assigned. The architecture and the operating system decide first,
/// then the triple.
pub open spec fn port_for(
    target: Seq<char>,
    target_arch: Seq<char>,
    target_os: Seq<char>,
    target_env: Seq<char>,
) -> Option<Seq<char>> {
    if target_arch == "x86_64"@ && target_os == "windows"@ {
        Some("MSVC-MingW"@)
    } else if target_arch == "x86_64"@ && target_os == "linux"@ && target_env == "gnu"@ {
        Some("GCC/Linux"@)
    } else if target == "thumbv7m-none-eabi"@ {
        Some("GCC/ARM_CM3"@)
    } else if target == "thumbv7em-none-eabi"@ {
        Some("GCC/ARM_CM3"@)
    } else if target == "thumbv7em-none-eabihf"@ {
        Some("GCC/ARM_CM4F"@)
    } else if target == "thumbv8m.main-none-eabi"@ {
        Some("GCC/ARM_CM33_NTZ/non_secure"@)
    } else if target == "thumbv8m.main-none-eabihf"@ {
        Some("GCC/ARM_CM33_NTZ/non_secure"@)
    } else {
        None
    }
}

/// The directory of the kernel's portable layer for a build target; none for
/// a target that has no layer assigned.
pub fn freertos_port_for(target: &str, target_arch: &str, target_os: &str, target_env: &str) -> (port:
    Option<&'static str>)
    ensures
        match port {
            Some(dir) => port_for(target@, target_arch@, target_os@, target_env@) == Some(dir@),
            None => port_for(target@, target_arch@, target_os@, target_env@) is None,
        },
{
    if same(target_arch, "x86_64") && same(target_os, "windows") {
        Some("MSVC-MingW")
    } else if same(target_arch, "x86_64") && same(target_os, "linux") && same(target_env, "gnu") {
        Some("GCC/Linux")
    } else if same(target, "thumbv7m-none-eabi") {
        Some("GCC/ARM_CM3")
    } else if same(target, "thumbv7em-none-eabi") {
        // M4 cores without FPU use M3
        Some("GCC/ARM_CM3")
    } else if same(target, "thumbv7em-none-eabihf") {
        Some("GCC/ARM_CM4F")
    } else if same(target, "thumbv8m.main-none-eabi") {
        Some("GCC/ARM_CM33_NTZ/non_secure")
    } else if same(target, "thumbv8m.main-none-eabihf") {
        Some("GCC/ARM_CM33_NTZ/non_secure")
    } else {
        None
    }
}

/// What a build needs in place before the kernel can be compiled, in the
/// order in which it is looked for.
#[derive(Copy, Clone, Debug, PartialEq, Eq, Structural)]
pub enum BuildInput {
    /// The directory of the kernel's sources.
    KernelDir,
    /// The directory of the portable layer.
    PortDir,
    /// The directory of the kernel's headers.
    IncludeDir,
    /// The file of the heap implementation.
    HeapFile,
    /// The directory of the kernel's configuration header.
    ConfigDir,
    /// The file of the shim.
    ShimFile,
}

/// What is and what is not in place for a build.
#[derive(Copy, Clone, Debug)]
pub struct BuildInputs {
    pub kernel_dir: bool,
    pub port_dir: bool,
    pub include_dir: bool,
    pub heap_file: bool,
    pub config_dir: bool,
    pub shim_file: bool,
}

/// The first input that is missing, in the order in which they are looked for;
/// none where all are in place.
pub open spec fn first_missing(found: BuildInputs) -> Option<BuildInput> {
    if !found.kernel_dir {
        Some(BuildInput::KernelDir)
    } else if !found.port_dir {
        Some(BuildInput::PortDir)
    } else if !found.include_dir {
        Some(BuildInput::IncludeDir)
    } else if !found.heap_file {
        Some(BuildInput::HeapFile)
    } else if !found.config_dir {
        Some(BuildInput::ConfigDir)
    } else if !found.shim_file {
        Some(BuildInput::ShimFile)
    } else {
        None
    }
}

/// Check that all required files and paths exist: succeeds where they do, and
/// names the first that is missing where they do not.
pub fn verify_paths(found: BuildInputs) -> (r: Result<(), BuildInput>)
    ensures
        match r {
            Ok(_) => first_missing(found) is None,
            Err(missing) => first_missing(found) == Some(missing),
        },
{
    if !found.kernel_dir {
        return Err(BuildInput::KernelDir);
    }
    if !found.port_dir {
        return Err(BuildInput::PortDir);
    }
    if !found.include_dir {
        return Err(BuildInput::IncludeDir);
    }
    if !found.heap_file {
        return Err(BuildInput::HeapFile);
    }
    if !found.config_dir {
        return Err(BuildInput::ConfigDir);
    }
    if !found.shim_file {
        return Err(BuildInput::ShimFile);
    }
    Ok(())
}

/// Looking for the inputs one after the other, from the first, and stopping
/// at one that is missing, names the first that is missing: an input is the
/// first missing one exactly when it is missing and every input before it in
/// the order is in place.
pub proof fn lemma_order_finds_first_missing(found: BuildInputs)
    ensures
        first_missing(found) == missing_from(found, BuildInput::KernelDir, 6),
{
    reveal_with_fuel(missing_from, 7);
}

/// The first input that is missing among `input` and those looked for after
/// it, `steps` being no less than their number.
pub open spec fn missing_from(found: BuildInputs, input: BuildInput, steps: nat) -> Option<
    BuildInput,
>
    decreases steps,
{
    if !input.found_in(found) {
        Some(input)
    } else if steps == 0 {
        None
    } else {
        match input.spec_next() {
            Some(next) => missing_from(found, next, (steps - 1) as nat),
            None => None,
        }
    }
}

impl BuildInput {
    /// The input that is looked for after this one; none after the last.
    pub open spec fn spec_next(self) -> Option<BuildInput> {
        match self {
            BuildInput::KernelDir => Some(BuildInput::PortDir),
            BuildInput::PortDir => Some(BuildInput::IncludeDir),
            BuildInput::IncludeDir => Some(BuildInput::HeapFile),
            BuildInput::HeapFile => Some(BuildInput::ConfigDir),
            BuildInput::ConfigDir => Some(BuildInput::ShimFile),
            BuildInput::ShimFile => None,
        }
    }

    /// The input that is looked for first.
    pub fn first() -> (input: BuildInput)
        ensures
            input == BuildInput::KernelDir,
    {
        BuildInput::KernelDir
    }

    /// The input that is looked for after this one; none after the last.
    pub fn next(&self) -> (input: Option<BuildInput>)
        ensures
            input == self.spec_next(),
    {
        match self {
            BuildInput::KernelDir => Some(BuildInput::PortDir),
            BuildInput::PortDir => Some(BuildInput::IncludeDir),
            BuildInput::IncludeDir => Some(BuildInput::HeapFile),
            BuildInput::HeapFile => Some(BuildInput::ConfigDir),
            BuildInput::ConfigDir => Some(BuildInput::ShimFile),
            BuildInput::ShimFile => None,
        }
    }

    /// Whether the input is in place, by what was found.
    pub open spec fn found_in(self, found: BuildInputs) -> bool {
        match self {
            BuildInput::KernelDir => found.kernel_dir,
            BuildInput::PortDir => found.port_dir,
            BuildInput::IncludeDir => found.include_dir,
            BuildInput::HeapFile => found.heap_file,
            BuildInput::ConfigDir => found.config_dir,
            BuildInput::ShimFile => found.shim_file,
        }
    }

    /// What the build says of a missing input that was looked for at `path`.
    pub open spec fn spec_message(self, path: Seq<char>) -> Seq<char> {
        match self {
            BuildInput::KernelDir => "Directory freertos_dir does not exist: "@ + path,
            BuildInput::PortDir => "Directory freertos_port_dir does not exist: "@ + path,
            BuildInput::IncludeDir => "Directory freertos_include_dir does not exist: "@ + path,
            BuildInput::HeapFile => "File heap_?.c does not exist: "@ + path,
            BuildInput::ConfigDir => "Directory freertos_config_dir does not exist: "@ + path,
            BuildInput::ShimFile => "File freertos_shim '"@ + path
                + "' does not exist, missing freertos-rust dependency?"@,
        }
    }

    /// What the build says of a missing input that was looked for at `path`.
    pub fn message(&self, path: &str) -> (message: String)
        ensures
            message@ == self.spec_message(path@),
    {
        let mut message = String::new();
        match self {
            BuildInput::KernelDir => {
                message.append("Directory freertos_dir does not exist: ");
                message.append(path);
            },
            BuildInput::PortDir => {
                message.append("Directory freertos_port_dir does not exist: ");
                message.append(path);
            },
            BuildInput::IncludeDir => {
                message.append("Directory freertos_include_dir does not exist: ");
                message.append(path);
            },
            BuildInput::HeapFile => {
                message.append("File heap_?.c does not exist: ");
                message.append(path);
            },
            BuildInput::ConfigDir => {
                message.append("Directory freertos_config_dir does not exist: ");
                message.append(path);
            },
            BuildInput::ShimFile => {
                message.append("File freertos_shim '");
                message.append(path);
                message.append("' does not exist, missing freertos-rust dependency?");
            },
        }
        assert(message@ =~= self.spec_message(path@));
        message
    }
}

} // verus!
