//! The CPU architectures that the kernel is built for, and where the build
//! keeps what belongs to each.
//!
//! Paths are text, with `/` between their components, below a project
//! directory that the caller names.

use vstd::prelude::*;
use vstd::string::*;

verus! {

/// `dir` with the component `name` below it: the two joined by one `/`,
/// unless `dir` is empty or ends in `/` already.
pub open spec fn spec_join_path(dir: Seq<char>, name: Seq<char>) -> Seq<char> {
    if dir.len() == 0 || dir.last() == '/' {
        dir + name
    } else {
        dir + seq!['/'] + name
    }
}

/// `dir` with the component `name` below it.
pub fn join_path(dir: &str, name: &str) -> (path: String)
    ensures
        path@ == spec_join_path(dir@, name@),
{
    let len = dir.unicode_len();
    let mut path = dir.to_owned();
    if len > 0 && dir.get_char(len - 1) != '/' {
        proof {
            reveal_strlit("/");
            assert("/"@ =~= seq!['/']);
        }
        path.append("/");
    }
    path.append(name);
    path
}

/// What went wrong with a command.
#[derive(Debug, PartialEq, Eq)]
pub enum XError {
    /// `value` names no value of the type `kind`.
    EnumParse { kind: &'static str, value: String },
}

/// `text` with its letters in lower case.
pub uninterp spec fn lowercase_text(text: Seq<char>) -> Seq<char>;

/// `str::to_lowercase`: the text with each character replaced by its lower
/// case form, as Unicode defines it. The result depends on the text alone.
#[verifier::external_body]
fn to_lowercase(text: &str) -> (lower: String)
    ensures
        lower@ == lowercase_text(text@),
{
    text.to_lowercase()
}

/// The supported CPU architectures.
#[derive(Clone, Copy, Debug, PartialEq, Eq, Structural)]
pub enum Arch {
    Riscv64,
    X86_64,
    Aarch64,
}

impl Arch {
    /// The name of the architecture, as characters.
    pub open spec fn spec_name(&self) -> Seq<char> {
        match self {
            Arch::Riscv64 => "riscv64"@,
            Arch::X86_64 => "x86_64"@,
            Arch::Aarch64 => "aarch64"@,
        }
    }

    /// Returns the name of Arch.
    pub fn name(&self) -> (name: &'static str)
        ensures
            name@ == self.spec_name(),
    {
        match self {
            Arch::Riscv64 => "riscv64",
            Arch::X86_64 => "x86_64",
            Arch::Aarch64 => "aarch64",
        }
    }

    /// The architecture that `s` names, whatever the case of its letters.
    pub fn from_str(s: &str) -> (arch: Result<Arch, XError>)
        ensures
            match arch {
                Ok(arch) => lowercase_text(s@) == arch.spec_name(),
                Err(XError::EnumParse { kind, value }) => {
                    &&& lowercase_text(s@) != "riscv64"@
                    &&& lowercase_text(s@) != "x86_64"@
                    &&& lowercase_text(s@) != "aarch64"@
                    &&& kind@ == "Arch"@
                    &&& value@ == s@
                },
            },
    {
        let lower = to_lowercase(s);
        if lower == "riscv64".to_owned() {
            Ok(Arch::Riscv64)
        } else if lower == "x86_64".to_owned() {
            Ok(Arch::X86_64)
        } else if lower == "aarch64".to_owned() {
            Ok(Arch::Aarch64)
        } else {
            Err(XError::EnumParse { kind: "Arch", value: s.to_owned() })
        }
    }

    /// The name of the musl cross toolchain for the architecture: its name
    /// and `-linux-musl-cross`.
    pub fn musl_cross_name(&self) -> (name: String)
        ensures
            name@ == self.spec_name() + "-linux-musl-cross"@,
    {
        let mut name = self.name().to_owned();
        name.append("-linux-musl-cross");
        name
    }

    /// Returns the path to store arch-dependent files from network:
    /// `ignored/origin/archs/` and the architecture's name, below
    /// `project_dir`.
    pub fn origin(&self, project_dir: &str) -> (path: String)
        ensures
            path@ == spec_join_path(
                spec_join_path(
                    spec_join_path(spec_join_path(project_dir@, "ignored"@), "origin"@),
                    "archs"@,
                ),
                self.spec_name(),
            ),
    {
        let ignored = join_path(project_dir, "ignored");
        let origin = join_path(ignored.as_str(), "origin");
        let archs = join_path(origin.as_str(), "archs");
        join_path(archs.as_str(), self.name())
    }

    /// Returns the path to cache arch-dependent generated files durning
    /// processes: `ignored/target/` and the architecture's name, below
    /// `project_dir`.
    pub fn target(&self, project_dir: &str) -> (path: String)
        ensures
            path@ == spec_join_path(
                spec_join_path(spec_join_path(project_dir@, "ignored"@), "target"@),
                self.spec_name(),
            ),
    {
        let ignored = join_path(project_dir, "ignored");
        let target = join_path(ignored.as_str(), "target");
        join_path(target.as_str(), self.name())
    }
}

/// The architecture that a command was given.
#[derive(Clone, Copy, Debug, PartialEq, Eq, Structural)]
pub struct ArchArg {
    /// Build architecture, `riscv64` or `x86_64`.
    pub arch: Arch,
}

impl ArchArg {
    /// Returns the [`LinuxRootfs`] object related to selected architecture.
    pub fn linux_rootfs(&self) -> (rootfs: LinuxRootfs)
        ensures
            rootfs == LinuxRootfs(self.arch),
    {
        LinuxRootfs::new(self.arch)
    }
}

/// The root file system of the POSIX-like personality for one architecture.
#[derive(Clone, Copy, Debug, PartialEq, Eq, Structural)]
pub struct LinuxRootfs(pub Arch);

impl LinuxRootfs {
    /// The rootfs of the given architecture.
    pub fn new(arch: Arch) -> (rootfs: LinuxRootfs)
        ensures
            rootfs == LinuxRootfs(arch),
    {
        LinuxRootfs(arch)
    }

    /// The path of the rootfs: `rootfs/` and the architecture's name, below
    /// `project_dir`.
    pub fn path(&self, project_dir: &str) -> (path: String)
        ensures
            path@ == spec_join_path(spec_join_path(project_dir@, "rootfs"@), self.0.spec_name()),
    {
        let rootfs = join_path(project_dir, "rootfs");
        join_path(rootfs.as_str(), self.0.name())
    }

    /// The path of the tool that strips binaries for the architecture, in
    /// the musl cross toolchain at `musl`: `bin/`, then the architecture's
    /// name and `-linux-musl-strip`.
    pub fn strip(&self, musl: &str) -> (path: String)
        ensures
            path@ == spec_join_path(
                spec_join_path(musl@, "bin"@),
                self.0.spec_name() + "-linux-musl-strip"@,
            ),
    {
        let bin = join_path(musl, "bin");
        let mut tool = self.0.name().to_owned();
        tool.append("-linux-musl-strip");
        join_path(bin.as_str(), tool.as_str())
    }
}

/// Whether `c` is one of the ten decimal digits.
pub open spec fn is_digit(c: char) -> bool {
    '0' <= c <= '9'
}

/// Whether `name` is the file name of a dynamic library: a stem that is not
/// empty, then `.so`, then any number of version numbers, each after a dot
/// and made of decimal digits alone. `dot` is where the stem ends.
pub open spec fn is_so_name_at(name: Seq<char>, dot: int) -> bool {
    &&& 0 < dot
    &&& dot + 2 < name.len()
    &&& forall|i: int| 0 <= i < dot ==> name[i] != '.'
    &&& name[dot] == '.'
    &&& name[dot + 1] == 's'
    &&& name[dot + 2] == 'o'
    &&& dot + 3 < name.len() ==> name[dot + 3] == '.'
    &&& forall|i: int| dot + 3 <= i < name.len() ==> name[i] == '.' || is_digit(#[trigger] name[i])
}

/// Whether `name` is the file name of a dynamic library.
pub open spec fn spec_is_so_name(name: Seq<char>) -> bool {
    exists|dot: int| is_so_name_at(name, dot)
}

/// Whether `name` is the file name of a dynamic library, such as `libc.so`
/// or `libz.so.1.2`.
#[verifier::when_used_as_spec(spec_is_so_name_str)]
pub fn is_so_name(name: &str) -> (so: bool)
    ensures
        so == spec_is_so_name(name@),
{
    let len = name.unicode_len();
    let mut dot: usize = 0;
    while dot < len && name.get_char(dot) != '.'
        invariant
            dot <= len,
            len == name@.len(),
            forall|i: int| 0 <= i < dot ==> name@[i] != '.',
        decreases len - dot,
    {
        dot += 1;
    }
    proof {
        // The stem ends at the first dot, and nowhere else.
        assert forall|other: int| is_so_name_at(name@, other) implies other == dot by {
            if other < dot {
                assert(name@[other] == '.');
            } else if other > dot {
                assert(name@[dot as int] != '.');
            }
        }
    }
    if dot == 0 || len < 3 || dot > len - 3 {
        return false;
    }
    if name.get_char(dot + 1) != 's' || name.get_char(dot + 2) != 'o' {
        return false;
    }
    if dot + 3 < len && name.get_char(dot + 3) != '.' {
        return false;
    }
    let mut i: usize = dot + 3;
    while i < len
        invariant
            dot + 3 <= i <= len,
            len == name@.len(),
            forall|other: int| is_so_name_at(name@, other) ==> other == dot,
            dot + 3 < len ==> name@[dot + 3] == '.',
            forall|j: int| dot + 3 <= j < i ==> name@[j] == '.' || is_digit(#[trigger] name@[j]),
        decreases len - i,
    {
        let c = name.get_char(i);
        if c != '.' && !(c >= '0' && c <= '9') {
            assert(!is_digit(name@[i as int]));
            return false;
        }
        i += 1;
    }
    assert(is_so_name_at(name@, dot as int));
    true
}

/// Whether `name` is the file name of a dynamic library.
pub open spec fn spec_is_so_name_str(name: &str) -> bool {
    spec_is_so_name(name@)
}

} // verus!
