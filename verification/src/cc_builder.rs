//! The computable core of the native module's build pipeline.
//!
//! The native cryptographic module is compiled from a per-target manifest: a
//! list of libraries, each with a name, extra compiler flags and a source
//! list. This module holds the decisions of that pipeline — which manifest
//! file to read, whether a build may proceed, and the exact compile job owed
//! for every library — as verified functions over plain paths and strings.
//! Reading the manifest from disk and driving the C compiler stay outside.

use vstd::prelude::*;
use vstd::string::StringExecFns;

verus! {

/// The kind of archive a build may produce. Only static archives are
/// supported by this builder.
#[derive(Clone, Copy, Debug, PartialEq, Eq, Structural)]
pub enum OutputLibType {
    Static,
    Dynamic,
}

/// One library section of the per-target build manifest.
pub struct Library {
    pub name: String,
    pub flags: Vec<String>,
    pub sources: Vec<String>,
}

/// The parsed per-target build manifest: the libraries to compile.
pub struct Config {
    pub libraries: Vec<Library>,
}

/// Everything the C compiler driver needs for one library of the manifest.
/// `defines` pairs each preprocessor name with its value.
pub struct CompileJob {
    pub out_dir: String,
    pub includes: Vec<String>,
    pub defines: Vec<(String, String)>,
    pub flags: Vec<String>,
    pub files: Vec<String>,
    pub output_name: String,
}

/// `a`, then a path separator, then `b`.
pub open spec fn path_concat(a: Seq<char>, b: Seq<char>) -> Seq<char> {
    a + "/"@ + b
}

/// Joins one path component onto a base path.
pub fn path_join(base: &str, tail: &str) -> (r: String)
    ensures
        r@ == path_concat(base@, tail@),
{
    let mut s = base.to_owned();
    s.append("/");
    s.append(tail);
    s
}

/// Whether a build targets Linux, where the plan gains a portability
/// definition and the thread-library flag.
pub open spec fn is_linux_target(target_os: Seq<char>) -> bool {
    target_os == "linux"@
}

/// The flags every compile starts with, before the manifest's own; on Linux
/// the thread library is linked in as well.
pub open spec fn base_flags(linux: bool) -> Seq<Seq<char>> {
    if linux {
        seq!["-std=c99"@, "-Wno-unused-parameter"@, "-lpthread"@]
    } else {
        seq!["-std=c99"@, "-Wno-unused-parameter"@]
    }
}

/// The include directories of every compile: the builder's own headers, the
/// generated ones, and the native source tree's, in that order.
pub open spec fn include_dirs(manifest_dir: Seq<char>) -> Seq<Seq<char>> {
    seq![
        path_concat(manifest_dir, "include"@),
        path_concat(manifest_dir, "generated-include"@),
        path_concat(path_concat(manifest_dir, "aws-lc"@), "include"@),
        path_concat(
            path_concat(path_concat(path_concat(manifest_dir, "aws-lc"@), "third_party"@), "s2n-bignum"@),
            "include"@,
        ),
    ]
}

/// The preprocessor definitions of a compile: the portability definition on
/// Linux, and the symbol-prefix pair when a build prefix was requested.
pub open spec fn expected_defines(linux: bool, prefix: Option<Seq<char>>) -> Seq<
    (Seq<char>, Seq<char>),
> {
    let base: Seq<(Seq<char>, Seq<char>)> = if linux {
        seq![("_XOPEN_SOURCE"@, "700"@)]
    } else {
        Seq::empty()
    };
    match prefix {
        Some(p) => base + seq![("BORINGSSL_IMPLEMENTATION"@, "1"@), ("BORINGSSL_PREFIX"@, p)],
        None => base,
    }
}

/// The files of a compile: the C shim first, then every manifest source,
/// resolved inside the native source tree.
pub open spec fn expected_files(manifest_dir: Seq<char>, sources: Seq<Seq<char>>) -> Seq<
    Seq<char>,
> {
    seq![path_concat(manifest_dir, "rust_wrapper.c"@)] + sources.map_values(
        |s: Seq<char>| path_concat(path_concat(manifest_dir, "aws-lc"@), s),
    )
}

/// The archive name of a compile: the prefixed name when a build prefix was
/// requested, else the library's own name from the manifest.
pub open spec fn expected_output_name(prefix: Option<Seq<char>>, lib_name: Seq<char>) -> Seq<
    char,
> {
    match prefix {
        Some(p) => p + "_crypto"@,
        None => lib_name,
    }
}

/// The compile job `build_plan` owes for one library of the manifest.
pub open spec fn job_matches(job: CompileJob, b: CcBuilder, lib: Library, linux: bool) -> bool {
    &&& job.out_dir@ == b.out_dir@
    &&& job.includes.deep_view() == include_dirs(b.manifest_dir@)
    &&& job.defines.deep_view() == expected_defines(linux, b.build_prefix.deep_view())
    &&& job.flags.deep_view() == base_flags(linux) + lib.flags.deep_view()
    &&& job.files.deep_view() == expected_files(b.manifest_dir@, lib.sources.deep_view())
    &&& job.output_name@ == expected_output_name(b.build_prefix.deep_view(), lib.name@)
}

/// Plans the compilation of the native module's libraries from a per-target
/// manifest.
pub struct CcBuilder {
    pub manifest_dir: String,
    pub out_dir: String,
    pub build_prefix: Option<String>,
    pub output_lib_type: OutputLibType,
}

impl CcBuilder {
    pub fn new(
        manifest_dir: String,
        out_dir: String,
        build_prefix: Option<String>,
        output_lib_type: OutputLibType,
    ) -> (r: CcBuilder)
        ensures
            r == (CcBuilder { manifest_dir, out_dir, build_prefix, output_lib_type }),
    {
        CcBuilder { manifest_dir, out_dir, build_prefix, output_lib_type }
    }

    /// The path of the per-target build manifest:
    /// `<manifest_dir>/builder/cc/<target>.toml`.
    pub fn target_build_config_path(&self, target: &str) -> (r: String)
        ensures
            r@ == path_concat(
                path_concat(path_concat(self.manifest_dir@, "builder"@), "cc"@),
                target@ + ".toml"@,
            ),
    {
        let mut file = target.to_owned();
        file.append(".toml");
        path_join(
            path_join(path_join(self.manifest_dir.as_str(), "builder").as_str(), "cc").as_str(),
            file.as_str(),
        )
    }

    /// Decides whether a build can proceed. Dynamic outputs are refused
    /// outright; otherwise the per-target manifest must be present
    /// (`config_exists` reports whether the file at
    /// `target_build_config_path(target)` exists).
    pub fn check_dependencies(&self, target: &str, config_exists: bool) -> (r: Result<
        (),
        String,
    >)
        ensures
            self.output_lib_type is Dynamic ==> (r matches Err(m) && m@
                == "CcBuilder only supports static builds"@),
            self.output_lib_type is Static && !config_exists ==> (r matches Err(m) && m@
                == "Platform not supported: "@ + target@),
            self.output_lib_type is Static && config_exists ==> r is Ok,
    {
        if self.output_lib_type == OutputLibType::Dynamic {
            return Err("CcBuilder only supports static builds".to_owned());
        }
        if !config_exists {
            let mut message = "Platform not supported: ".to_owned();
            message.append(target);
            return Err(message);
        }
        Ok(())
    }

    /// The compile job for one library of the manifest.
    fn compile_job(&self, lib: &Library, linux: bool) -> (job: CompileJob)
        ensures
            job_matches(job, *self, *lib, linux),
    {
        let manifest = self.manifest_dir.as_str();
        let aws_lc_dir = path_join(manifest, "aws-lc");

        let mut includes: Vec<String> = Vec::new();
        includes.push(path_join(manifest, "include"));
        includes.push(path_join(manifest, "generated-include"));
        includes.push(path_join(aws_lc_dir.as_str(), "include"));
        includes.push(
            path_join(
                path_join(path_join(aws_lc_dir.as_str(), "third_party").as_str(), "s2n-bignum")
                    .as_str(),
                "include",
            ),
        );
        proof {
            assert(includes.deep_view() =~~= include_dirs(self.manifest_dir@));
        }

        let mut defines: Vec<(String, String)> = Vec::new();
        if linux {
            defines.push(("_XOPEN_SOURCE".to_owned(), "700".to_owned()));
        }

        let mut flags: Vec<String> = Vec::new();
        flags.push("-std=c99".to_owned());
        flags.push("-Wno-unused-parameter".to_owned());
        if linux {
            flags.push("-lpthread".to_owned());
        }
        let base_len = flags.len();
        let mut j: usize = 0;
        while j < lib.flags.len()
            invariant
                j <= lib.flags@.len(),
                flags@.len() == base_len + j,
                base_len == base_flags(linux).len(),
                forall|i: int|
                    0 <= i < base_len ==> flags.deep_view()[i] == base_flags(linux)[i],
                forall|i: int|
                    0 <= i < j ==> flags.deep_view()[base_len + i] == lib.flags.deep_view()[i],
            decreases lib.flags@.len() - j,
        {
            flags.push(lib.flags[j].clone());
            j += 1;
        }
        proof {
            assert(flags.deep_view() =~~= base_flags(linux) + lib.flags.deep_view());
        }

        let mut files: Vec<String> = Vec::new();
        files.push(path_join(manifest, "rust_wrapper.c"));
        let mut k: usize = 0;
        while k < lib.sources.len()
            invariant
                k <= lib.sources@.len(),
                files@.len() == 1 + k,
                files.deep_view()[0] == path_concat(self.manifest_dir@, "rust_wrapper.c"@),
                aws_lc_dir@ == path_concat(self.manifest_dir@, "aws-lc"@),
                forall|i: int|
                    0 <= i < k ==> files.deep_view()[1 + i] == path_concat(
                        path_concat(self.manifest_dir@, "aws-lc"@),
                        lib.sources.deep_view()[i],
                    ),
            decreases lib.sources@.len() - k,
        {
            files.push(path_join(aws_lc_dir.as_str(), lib.sources[k].as_str()));
            k += 1;
        }
        proof {
            assert(files.deep_view() =~~= expected_files(
                self.manifest_dir@,
                lib.sources.deep_view(),
            ));
        }

        let output_name = match &self.build_prefix {
            Some(prefix) => {
                defines.push(("BORINGSSL_IMPLEMENTATION".to_owned(), "1".to_owned()));
                defines.push(("BORINGSSL_PREFIX".to_owned(), prefix.clone()));
                let mut name = prefix.clone();
                name.append("_crypto");
                name
            },
            None => lib.name.clone(),
        };
        proof {
            assert(defines.deep_view() =~~= expected_defines(
                linux,
                self.build_prefix.deep_view(),
            ));
        }

        CompileJob {
            out_dir: self.out_dir.clone(),
            includes,
            defines,
            flags,
            files,
            output_name,
        }
    }

    /// Plans the whole build: one compile job per library of the manifest,
    /// in manifest order. `target_os` is the operating system the build
    /// targets; on `linux` the plan gains the portability definition and the
    /// thread-library flag.
    pub fn build_plan(&self, config: &Config, target_os: &str) -> (r: Vec<CompileJob>)
        ensures
            r@.len() == config.libraries@.len(),
            forall|i: int|
                0 <= i < r@.len() ==> #[trigger] job_matches(
                    r@[i],
                    *self,
                    config.libraries@[i],
                    is_linux_target(target_os@),
                ),
    {
        let is_linux = target_os.to_owned() == "linux".to_owned();
        let mut jobs: Vec<CompileJob> = Vec::new();
        let mut n: usize = 0;
        while n < config.libraries.len()
            invariant
                n <= config.libraries@.len(),
                jobs@.len() == n,
                is_linux == is_linux_target(target_os@),
                forall|i: int|
                    0 <= i < n ==> #[trigger] job_matches(
                        jobs@[i],
                        *self,
                        config.libraries@[i],
                        is_linux_target(target_os@),
                    ),
            decreases config.libraries@.len() - n,
        {
            let job = self.compile_job(&config.libraries[n], is_linux);
            jobs.push(job);
            n += 1;
        }
        jobs
    }
}

} // verus!
