//! The runtime and the model of speech recognition on this machine.
use crate::text;
use vstd::prelude::*;

verus! {

// The runtime.

/// The systems that there is a runtime for.
#[derive(Debug, Clone, Copy, PartialEq, Eq, Structural)]
pub enum TargetOs {
    MacOs,
    Linux,
    Windows,
}

/// The processors that are told apart.
#[derive(Debug, Clone, Copy, PartialEq, Eq, Structural)]
pub enum TargetArch {
    X86_64,
    Aarch64,
    Other,
}

/// The directory that is configured in the environment, or else the usual one.
pub fn configured_dir(variable: Option<String>, usual: String) -> (r: String)
    ensures
        r == (match variable {
            Some(dir) => dir,
            None => usual,
        }),
{
    match variable {
        Some(dir) => dir,
        None => usual,
    }
}

/// The file name of the runtime's library.
pub open spec fn ort_lib_filename(os: TargetOs) -> Seq<char> {
    match os {
        TargetOs::MacOs => "libonnxruntime.dylib"@,
        TargetOs::Linux => "libonnxruntime.so"@,
        TargetOs::Windows => "onnxruntime.dll"@,
    }
}

/// The file name of the runtime's library.
pub fn get_ort_lib_filename(os: TargetOs) -> (r: &'static str)
    ensures
        r@ == ort_lib_filename(os),
{
    match os {
        TargetOs::MacOs => "libonnxruntime.dylib",
        TargetOs::Linux => "libonnxruntime.so",
        TargetOs::Windows => "onnxruntime.dll",
    }
}

/// Where the runtime is downloaded from, if there is one for the machine.
pub open spec fn ort_download_url(os: TargetOs, arch: TargetArch) -> Option<Seq<char>> {
    match (os, arch) {
        (TargetOs::MacOs, TargetArch::Aarch64) => Some(
            "https://github.com/microsoft/onnxruntime/releases/download/v1.23.2/onnxruntime-osx-arm64-1.23.2.tgz"@,
        ),
        (TargetOs::MacOs, TargetArch::X86_64) => Some(
            "https://github.com/microsoft/onnxruntime/releases/download/v1.23.2/onnxruntime-osx-x86_64-1.23.2.tgz"@,
        ),
        (TargetOs::Linux, TargetArch::X86_64) => Some(
            "https://github.com/microsoft/onnxruntime/releases/download/v1.23.2/onnxruntime-linux-x64-1.23.2.tgz"@,
        ),
        (TargetOs::Linux, TargetArch::Aarch64) => Some(
            "https://github.com/microsoft/onnxruntime/releases/download/v1.23.2/onnxruntime-linux-aarch64-1.23.2.tgz"@,
        ),
        (TargetOs::Windows, _) => Some(
            "https://github.com/microsoft/onnxruntime/releases/download/v1.23.2/onnxruntime-win-x64-1.23.2.zip"@,
        ),
        _ => None,
    }
}

/// Where the runtime is downloaded from, if there is one for the machine.
pub fn get_ort_download_url(os: TargetOs, arch: TargetArch) -> (r: Option<&'static str>)
    ensures
        match r {
            Some(url) => ort_download_url(os, arch) == Some(url@),
            None => ort_download_url(os, arch) is None,
        },
{
    match (os, arch) {
        (TargetOs::MacOs, TargetArch::Aarch64) => Some(
            "https://github.com/microsoft/onnxruntime/releases/download/v1.23.2/onnxruntime-osx-arm64-1.23.2.tgz",
        ),
        (TargetOs::MacOs, TargetArch::X86_64) => Some(
            "https://github.com/microsoft/onnxruntime/releases/download/v1.23.2/onnxruntime-osx-x86_64-1.23.2.tgz",
        ),
        (TargetOs::Linux, TargetArch::X86_64) => Some(
            "https://github.com/microsoft/onnxruntime/releases/download/v1.23.2/onnxruntime-linux-x64-1.23.2.tgz",
        ),
        (TargetOs::Linux, TargetArch::Aarch64) => Some(
            "https://github.com/microsoft/onnxruntime/releases/download/v1.23.2/onnxruntime-linux-aarch64-1.23.2.tgz",
        ),
        (TargetOs::Windows, _) => Some(
            "https://github.com/microsoft/onnxruntime/releases/download/v1.23.2/onnxruntime-win-x64-1.23.2.zip",
        ),
        _ => None,
    }
}

/// The version of the runtime.
pub fn ort_version() -> (r: &'static str)
    ensures
        r@ == "1.23.2"@,
{
    "1.23.2"
}

/// The runtime is installed: its library is among the names of the files in its
/// directory.
pub open spec fn ort_installed(files: Seq<Seq<char>>, os: TargetOs) -> bool {
    files.contains(ort_lib_filename(os))
}

/// Tells whether the runtime is installed, given the names of the files in its
/// directory.
pub fn is_ort_installed(files: &Vec<String>, os: TargetOs) -> (r: bool)
    ensures
        r == ort_installed(text::texts(files@), os),
{
    text::is_among(get_ort_lib_filename(os), files)
}

/// What to do to have the runtime loaded.
pub enum InitAction {
    /// Nothing: it is loaded.
    Ready,
    /// Load the library.
    Load,
    /// Give up.
    Fail(String),
}

/// What to do to have the runtime loaded. A library that is not there cannot be.
pub fn init_ort(initialized: bool, lib_exists: bool, lib_path: &str) -> (r: InitAction)
    ensures
        if initialized {
            r is Ready
        } else if lib_exists {
            r is Load
        } else {
            r matches InitAction::Fail(why) && why@ == "ONNX Runtime library not found at "@
                + lib_path@ + ". Please download it first."@
        },
{
    if initialized {
        InitAction::Ready
    } else if lib_exists {
        InitAction::Load
    } else {
        InitAction::Fail(
            text::concat_three(
                "ONNX Runtime library not found at ",
                lib_path,
                ". Please download it first.",
            ),
        )
    }
}

/// What came of loading the library.
pub fn ort_loaded(loaded: Result<(), String>) -> (r: Result<(), String>)
    ensures
        match loaded {
            Ok(_) => r is Ok,
            Err(why) => r matches Err(e) && e@ == "Failed to load ONNX Runtime: "@ + why@,
        },
{
    match loaded {
        Ok(_) => Ok(()),
        Err(why) => Err(text::concat("Failed to load ONNX Runtime: ", why.as_str())),
    }
}

/// What is reported of the runtime.
pub struct OrtStatus {
    pub installed: bool,
    pub version: &'static str,
    pub path: String,
    pub size: u64,
    pub platform_supported: bool,
}

/// What is reported of the runtime, given the names of the files in its directory,
/// the path of its library and the library's size as far as that can be read. The
/// size of a library that is not there, or whose size cannot be read, is zero.
pub open spec fn is_ort_status(
    r: OrtStatus,
    files: Seq<Seq<char>>,
    path: Seq<char>,
    size: Option<u64>,
    os: TargetOs,
    arch: TargetArch,
) -> bool {
    &&& r.installed == ort_installed(files, os)
    &&& r.version@ == "1.23.2"@
    &&& r.path@ == path
    &&& r.size == (match size {
        Some(n) => if ort_installed(files, os) {
            n
        } else {
            0
        },
        None => 0,
    })
    &&& r.platform_supported == (ort_download_url(os, arch) is Some)
}

/// The report on the runtime, given the names of the files in its directory, the
/// path of its library and the library's size.
pub fn get_ort_status(
    files: &Vec<String>,
    path: String,
    size: Option<u64>,
    os: TargetOs,
    arch: TargetArch,
) -> (r: OrtStatus)
    ensures
        is_ort_status(r, text::texts(files@), path@, size, os, arch),
{
    let installed = is_ort_installed(files, os);
    let size: u64 = match size {
        Some(n) => if installed {
            n
        } else {
            0
        },
        None => 0,
    };
    OrtStatus {
        installed,
        version: ort_version(),
        path,
        size,
        platform_supported: get_ort_download_url(os, arch).is_some(),
    }
}

/// What is reported of the removal of the runtime.
pub enum DeleteReport {
    /// A success: there was nothing to remove.
    NotInstalled { message: &'static str },
    /// A success.
    Deleted { dir: String },
    /// A failure.
    Failed { error: String },
}

/// What is reported of the removal of the runtime, given the names of the files in
/// its directory before. The removal of the directory is tried only if the runtime
/// is installed.
pub open spec fn is_delete_report(
    r: DeleteReport,
    files: Seq<Seq<char>>,
    os: TargetOs,
    lib_dir: Seq<char>,
    removed: Result<(), String>,
) -> bool {
    if !ort_installed(files, os) {
        r matches DeleteReport::NotInstalled { message } && message@
            == "ONNX Runtime was not installed"@
    } else {
        match removed {
            Ok(_) => r matches DeleteReport::Deleted { dir } && dir@ == lib_dir,
            Err(why) => r matches DeleteReport::Failed { error } && error@ == "Failed to delete: "@
                + why@,
        }
    }
}

/// The report on the removal of the runtime, given the names of the files in its
/// directory before and what came of removing the directory.
pub fn delete_ort(
    files: &Vec<String>,
    os: TargetOs,
    lib_dir: String,
    removed: Result<(), String>,
) -> (r: DeleteReport)
    ensures
        is_delete_report(r, text::texts(files@), os, lib_dir@, removed),
{
    if !is_ort_installed(files, os) {
        return DeleteReport::NotInstalled { message: "ONNX Runtime was not installed" };
    }
    match removed {
        Ok(_) => DeleteReport::Deleted { dir: lib_dir },
        Err(why) => DeleteReport::Failed {
            error: text::concat("Failed to delete: ", why.as_str()),
        },
    }
}

/// The names of the files in the runtime's directory after a removal that was a
/// success: none once the directory is removed, and else the same as before.
pub open spec fn files_left(files: Seq<Seq<char>>, r: DeleteReport) -> Seq<Seq<char>> {
    match r {
        DeleteReport::Deleted { .. } => seq![],
        _ => files,
    }
}

/// The report on the runtime tells whether it is installed, and the removal is tried
/// if and only if it is. After a removal that was a success it is not installed, and
/// the report on it says so.
pub proof fn law_runtime_is_gone_after_its_removal(
    files: Seq<Seq<char>>,
    os: TargetOs,
    arch: TargetArch,
    path: Seq<char>,
    size: Option<u64>,
    lib_dir: Seq<char>,
    removed: Result<(), String>,
    before: OrtStatus,
    report: DeleteReport,
    after: OrtStatus,
)
    requires
        is_ort_status(before, files, path, size, os, arch),
        is_delete_report(report, files, os, lib_dir, removed),
        is_ort_status(after, files_left(files, report), path, size, os, arch),
    ensures
        before.installed == ort_installed(files, os),
        report is NotInstalled <==> !before.installed,
        !(report is Failed) ==> !ort_installed(files_left(files, report), os),
        !(report is Failed) ==> !after.installed && after.size == 0,
{
}

// The runtime's archive.

/// A decimal digit.
pub open spec fn is_digit(c: char) -> bool {
    '0' <= c <= '9'
}

/// One or more decimal digits.
pub open spec fn is_number(s: Seq<char>) -> bool {
    s.len() > 0 && forall|i: int| 0 <= i < s.len() ==> is_digit(#[trigger] s[i])
}

/// A name with a version of three numbers behind it.
pub open spec fn versioned(name: Seq<char>, x: Seq<char>, y: Seq<char>, z: Seq<char>) -> Seq<char> {
    name + x + seq!['.'] + y + seq!['.'] + z
}

/// The path ends in the name and a version of three numbers.
pub open spec fn ends_in_version(path: Seq<char>, name: Seq<char>) -> bool {
    exists|x: Seq<char>, y: Seq<char>, z: Seq<char>|
        {
            &&& is_number(x)
            &&& is_number(y)
            &&& is_number(z)
            &&& (#[trigger] versioned(name, x, y, z)).is_suffix_of(path)
        }
}

/// The entry of the runtime's archive that is its library: on macOS and Linux the
/// regular file with the version in its name. The archives for these systems also
/// hold links to it, with a part of the version or none, and for macOS files with
/// symbols for debuggers.
pub open spec fn is_library_entry(path: Seq<char>, regular_file: bool, os: TargetOs) -> bool {
    match os {
        TargetOs::MacOs => {
            &&& regular_file
            &&& ".dylib"@.is_suffix_of(path)
            &&& ends_in_version(path.take(path.len() - ".dylib"@.len()), "libonnxruntime."@)
            &&& !text::holds_text(path, ".dSYM"@)
        },
        TargetOs::Linux => regular_file && ends_in_version(path, "libonnxruntime.so."@),
        TargetOs::Windows => "onnxruntime.dll"@.is_suffix_of(path),
    }
}

/// Where the number begins that ends before `to`, if there is one.
fn number_start(v: &Vec<char>, to: usize) -> (r: Option<usize>)
    requires
        to <= v@.len(),
    ensures
        match r {
            Some(k) => {
                &&& k < to
                &&& forall|i: int| k <= i < to ==> is_digit(#[trigger] v@[i])
                &&& k > 0 ==> !is_digit(v@[k - 1])
            },
            None => to > 0 ==> !is_digit(v@[to - 1]),
        },
{
    let mut k: usize = to;
    while k > 0 && '0' <= v[k - 1] && v[k - 1] <= '9'
        invariant
            k <= to <= v@.len(),
            forall|i: int| k <= i < to ==> is_digit(#[trigger] v@[i]),
        decreases k,
    {
        k -= 1;
    }
    if k < to {
        Some(k)
    } else {
        None
    }
}

/// Where a number of a path that ends in a version begins.
proof fn lemma_number_start(s: Seq<char>, from: int, to: int, r: Option<usize>)
    requires
        0 < from < to <= s.len(),
        is_number(s.subrange(from, to)),
        !is_digit(s[from - 1]),
        match r {
            Some(k) => {
                &&& k < to
                &&& forall|i: int| k <= i < to ==> is_digit(#[trigger] s[i])
                &&& k > 0 ==> !is_digit(s[k - 1])
            },
            None => to > 0 ==> !is_digit(s[to - 1]),
        },
    ensures
        r is Some,
        r->0 == from,
{
    let number = s.subrange(from, to);
    assert(is_digit(number[to - from - 1]));
    assert(is_digit(s[to - 1]));
    let k = r->0 as int;
    if k < from {
        assert(is_digit(s[from - 1]));
    } else if from < k {
        assert(is_digit(number[k - 1 - from]));
        assert(is_digit(s[k - 1]));
    }
}

/// The numbers of the version begin at `a`, `b` and `c`, and the name ends before
/// them.
spec fn version_at(s: Seq<char>, name: Seq<char>, a: int, b: int, c: int) -> bool {
    &&& 0 <= a < b - 1
    &&& b < c - 1
    &&& c < s.len()
    &&& name.is_suffix_of(s.take(a))
    &&& is_number(s.subrange(a, b - 1))
    &&& s[b - 1] == '.'
    &&& is_number(s.subrange(b, c - 1))
    &&& s[c - 1] == '.'
    &&& is_number(s.subrange(c, s.len() as int))
}

proof fn lemma_parts(s: Seq<char>, name: Seq<char>) -> (r: (int, int, int))
    requires
        ends_in_version(s, name),
    ensures
        version_at(s, name, r.0, r.1, r.2),
{
    let (x, y, z) = choose|x: Seq<char>, y: Seq<char>, z: Seq<char>|
        {
            &&& is_number(x)
            &&& is_number(y)
            &&& is_number(z)
            &&& (#[trigger] versioned(name, x, y, z)).is_suffix_of(s)
        };
    let w = versioned(name, x, y, z);
    let off = s.len() - w.len();
    let p = s.take(off);
    assert(s.subrange(off, s.len() as int) =~= w);
    assert(s =~= p + w);
    let a = off + name.len();
    let b = a + x.len() + 1;
    let c = b + y.len() + 1;
    assert(s.take(a) =~= p + name);
    assert(name.is_suffix_of(s.take(a)));
    assert(s.subrange(a, b - 1) =~= x);
    assert(s.subrange(b, c - 1) =~= y);
    assert(s.subrange(c, s.len() as int) =~= z);
    (a, b, c)
}

proof fn lemma_whole(s: Seq<char>, name: Seq<char>, a: int, b: int, c: int)
    requires
        version_at(s, name, a, b, c),
    ensures
        ends_in_version(s, name),
{
    let x = s.subrange(a, b - 1);
    let y = s.subrange(b, c - 1);
    let z = s.subrange(c, s.len() as int);
    let off = a - name.len();
    let w = versioned(name, x, y, z);
    assert(s.take(a).subrange(off, a) =~= name);
    assert(s.subrange(off, a) =~= name);
    assert(s.subrange(off, s.len() as int) =~= w);
    assert(w.is_suffix_of(s));
}

/// Tells whether the path ends in the name and a version of three numbers.
fn has_version(path: &str, name: &str) -> (r: bool)
    requires
        name@.len() > 0,
        name@.last() == '.',
    ensures
        r == ends_in_version(path@, name@),
{
    let v = text::chars_of(path);
    let end: usize = v.len();
    let last = number_start(&v, end);
    let mut middle: Option<usize> = None;
    let mut first: Option<usize> = None;
    if let Some(c) = last {
        if c > 0 && v[c - 1] == '.' {
            middle = number_start(&v, c - 1);
            if let Some(b) = middle {
                if b > 0 && v[b - 1] == '.' {
                    first = number_start(&v, b - 1);
                }
            }
        }
    }
    proof {
        if ends_in_version(path@, name@) {
            let (a, b, c) = lemma_parts(path@, name@);
            lemma_number_start(path@, c, path@.len() as int, last);
            lemma_number_start(path@, b, c - 1, middle);
            assert(path@[a - 1] == name@.last()) by {
                assert(path@.take(a).last() == name@.last());
            }
            lemma_number_start(path@, a, b - 1, first);
        }
    }
    match first {
        None => false,
        Some(a) => {
            let head = text::string_between(&v, 0, a);
            assert(head@ =~= path@.take(a as int));
            let found = text::finishes_with(head.as_str(), name);
            proof {
                if found {
                    let s = path@;
                    let c = last->0 as int;
                    let b = middle->0 as int;
                    assert(is_number(s.subrange(a as int, b - 1)));
                    assert(is_number(s.subrange(b, c - 1)));
                    assert(is_number(s.subrange(c, s.len() as int)));
                    lemma_whole(s, name@, a as int, b, c);
                }
            }
            found
        },
    }
}

/// Tells whether an entry of the runtime's archive is its library.
pub fn is_versioned_lib(path: &str, regular_file: bool, os: TargetOs) -> (r: bool)
    ensures
        r == is_library_entry(path@, regular_file, os),
{
    match os {
        TargetOs::MacOs => {
            if !regular_file || !text::finishes_with(path, ".dylib") || text::contains_text(
                path,
                ".dSYM",
            ) {
                return false;
            }
            let v = text::chars_of(path);
            let extension = text::chars_of(".dylib");
            let stem = text::string_between(&v, 0, v.len() - extension.len());
            proof {
                reveal_strlit("libonnxruntime.");
                assert(stem@ =~= path@.take(path@.len() - ".dylib"@.len()));
            }
            has_version(stem.as_str(), "libonnxruntime.")
        },
        TargetOs::Linux => {
            proof {
                reveal_strlit("libonnxruntime.so.");
            }
            regular_file && has_version(path, "libonnxruntime.so.")
        },
        TargetOs::Windows => text::finishes_with(path, "onnxruntime.dll"),
    }
}

/// What is done with an entry of the runtime's archive.
#[derive(Debug, Clone, Copy, PartialEq, Eq, Structural)]
pub enum EntryAction {
    /// Pass it over and look at the next.
    PassOver,
    /// Take it for the library and look at no other.
    TakeAndStop,
}

/// What is done with an entry of the runtime's archive.
pub open spec fn action_on(path: Seq<char>, regular_file: bool, os: TargetOs) -> EntryAction {
    if is_library_entry(path, regular_file, os) {
        EntryAction::TakeAndStop
    } else {
        EntryAction::PassOver
    }
}

/// Decides what is done with an entry of the runtime's archive.
pub fn entry_action(path: &str, regular_file: bool, os: TargetOs) -> (r: EntryAction)
    ensures
        r == action_on(path@, regular_file, os),
{
    if is_versioned_lib(path, regular_file, os) {
        EntryAction::TakeAndStop
    } else {
        EntryAction::PassOver
    }
}

/// The position at which the search through the entries of an archive stops: that of
/// the entry that is taken, or the number of entries.
pub open spec fn search_end(entries: Seq<(Seq<char>, bool)>, os: TargetOs) -> int
    decreases entries.len(),
{
    if entries.len() == 0 || action_on(entries[0].0, entries[0].1, os) is TakeAndStop {
        0
    } else {
        1 + search_end(entries.drop_first(), os)
    }
}

/// The first entry that is the library is taken; the search passes over all entries
/// only if none is.
pub proof fn law_first_library_entry_is_taken(entries: Seq<(Seq<char>, bool)>, os: TargetOs)
    ensures
        0 <= search_end(entries, os) <= entries.len(),
        search_end(entries, os) < entries.len() ==> {
            let e = entries[search_end(entries, os)];
            is_library_entry(e.0, e.1, os)
        },
        forall|i: int|
            0 <= i < search_end(entries, os) ==> !is_library_entry(
                (#[trigger] entries[i]).0,
                entries[i].1,
                os,
            ),
    decreases entries.len(),
{
    if entries.len() > 0 && !(action_on(entries[0].0, entries[0].1, os) is TakeAndStop) {
        let rest = entries.drop_first();
        law_first_library_entry_is_taken(rest, os);
        assert forall|i: int| 0 <= i < search_end(entries, os) implies !is_library_entry(
            (#[trigger] entries[i]).0,
            entries[i].1,
            os,
        ) by {
            if i > 0 {
                assert(rest[i - 1] == entries[i]);
            }
        }
    }
}

// The model.

/// A file of the model, and where it is downloaded from.
pub struct ModelFile {
    pub name: &'static str,
    pub url: &'static str,
}

/// The files of the model.
pub open spec fn model_file_list() -> Seq<ModelFile> {
    seq![
        ModelFile {
            name: "encoder.onnx",
            url: "https://huggingface.co/altunenes/parakeet-rs/resolve/main/nemotron-speech-streaming-en-0.6b/encoder.onnx",
        },
        ModelFile {
            name: "encoder.onnx.data",
            url: "https://huggingface.co/altunenes/parakeet-rs/resolve/main/nemotron-speech-streaming-en-0.6b/encoder.onnx.data",
        },
        ModelFile {
            name: "decoder_joint.onnx",
            url: "https://huggingface.co/altunenes/parakeet-rs/resolve/main/nemotron-speech-streaming-en-0.6b/decoder_joint.onnx",
        },
        ModelFile {
            name: "tokenizer.model",
            url: "https://huggingface.co/altunenes/parakeet-rs/resolve/main/nemotron-speech-streaming-en-0.6b/tokenizer.model",
        },
    ]
}

/// The files of the model.
pub fn model_files() -> (r: Vec<ModelFile>)
    ensures
        r@ == model_file_list(),
{
    vec![
        ModelFile {
            name: "encoder.onnx",
            url: "https://huggingface.co/altunenes/parakeet-rs/resolve/main/nemotron-speech-streaming-en-0.6b/encoder.onnx",
        },
        ModelFile {
            name: "encoder.onnx.data",
            url: "https://huggingface.co/altunenes/parakeet-rs/resolve/main/nemotron-speech-streaming-en-0.6b/encoder.onnx.data",
        },
        ModelFile {
            name: "decoder_joint.onnx",
            url: "https://huggingface.co/altunenes/parakeet-rs/resolve/main/nemotron-speech-streaming-en-0.6b/decoder_joint.onnx",
        },
        ModelFile {
            name: "tokenizer.model",
            url: "https://huggingface.co/altunenes/parakeet-rs/resolve/main/nemotron-speech-streaming-en-0.6b/tokenizer.model",
        },
    ]
}

/// What is found of a file of the model: whether it is there, and its size as far
/// as that can be read.
#[derive(Debug, Clone, Copy, PartialEq, Eq, Structural)]
pub struct FileProbe {
    pub present: bool,
    pub size: Option<u64>,
}

/// What is reported of a file of the model.
pub struct FileStatus {
    pub name: &'static str,
    pub present: bool,
    pub size: u64,
}

/// What is reported of the model.
pub struct ModelStatus {
    pub installed: bool,
    pub path: String,
    pub total_size: u64,
    pub files: Vec<FileStatus>,
}

/// The size that counts of what is found of files: a file that is not there, or
/// whose size cannot be read, does not count.
pub open spec fn total_size(probes: Seq<FileProbe>) -> nat
    decreases probes.len(),
{
    if probes.len() == 0 {
        0
    } else {
        total_size(probes.drop_last()) + match probes.last().size {
            Some(n) => if probes.last().present {
                n as nat
            } else {
                0
            },
            None => 0,
        }
    }
}

/// The lines of the report on files. A file that is there and whose size cannot be
/// read has no line.
pub open spec fn file_lines(files: Seq<ModelFile>, probes: Seq<FileProbe>) -> Seq<
    (Seq<char>, bool, u64),
>
    decreases probes.len(),
{
    if probes.len() == 0 {
        seq![]
    } else {
        let before = file_lines(files, probes.drop_last());
        let name = files[probes.len() - 1].name@;
        let p = probes.last();
        if !p.present {
            before.push((name, false, 0))
        } else {
            match p.size {
                Some(n) => before.push((name, true, n)),
                None => before,
            }
        }
    }
}

/// The lines of a report.
pub open spec fn line_views(files: Seq<FileStatus>) -> Seq<(Seq<char>, bool, u64)> {
    files.map_values(|f: FileStatus| (f.name@, f.present, f.size))
}

proof fn lemma_total_grows(probes: Seq<FileProbe>, i: int)
    requires
        0 <= i <= probes.len(),
    ensures
        total_size(probes.take(i)) <= total_size(probes),
    decreases probes.len() - i,
{
    if i == probes.len() {
        assert(probes.take(i) =~= probes);
    } else {
        lemma_total_grows(probes, i + 1);
        assert(probes.take(i + 1).drop_last() =~= probes.take(i));
    }
}

/// The report on the model, given what is found of each of its files. The sizes
/// together have to fit into the report.
pub fn get_model_status(path: String, probes: &Vec<FileProbe>) -> (r: ModelStatus)
    requires
        probes@.len() == model_file_list().len(),
        total_size(probes@) <= u64::MAX,
    ensures
        r.path == path,
        r.installed == (forall|i: int| 0 <= i < probes@.len() ==> (#[trigger] probes@[i]).present),
        r.total_size == total_size(probes@),
        line_views(r.files@) == file_lines(model_file_list(), probes@),
{
    let list = model_files();
    let mut files: Vec<FileStatus> = Vec::new();
    let mut sum: u64 = 0;
    let mut all_present = true;
    let mut i: usize = 0;
    assert(probes@.take(0) =~= Seq::<FileProbe>::empty());
    assert(line_views(files@) =~= seq![]);
    while i < list.len()
        invariant
            list@ == model_file_list(),
            probes@.len() == list@.len(),
            total_size(probes@) <= u64::MAX,
            i <= list@.len(),
            sum == total_size(probes@.take(i as int)),
            all_present == (forall|k: int|
                0 <= k < i ==> (#[trigger] probes@[k]).present),
            line_views(files@) == file_lines(list@, probes@.take(i as int)),
        decreases list@.len() - i,
    {
        let ghost now = probes@.take(i as int + 1);
        assert(now.drop_last() =~= probes@.take(i as int));
        assert(now.last() == probes@[i as int]);
        let ghost before = line_views(files@);
        proof {
            lemma_total_grows(probes@, i as int + 1);
        }
        let p = probes[i];
        if p.present {
            if let Some(size) = p.size {
                sum = sum + size;
                files.push(FileStatus { name: list[i].name, present: true, size });
                assert(line_views(files@) =~= before.push((list@[i as int].name@, true, size)));
            }
        } else {
            all_present = false;
            files.push(FileStatus { name: list[i].name, present: false, size: 0 });
            assert(line_views(files@) =~= before.push((list@[i as int].name@, false, 0u64)));
        }
        i += 1;
    }
    assert(probes@.take(i as int) =~= probes@);
    ModelStatus { installed: all_present, path, total_size: sum, files }
}

/// What came of removing a file of the model.
pub enum Removal {
    /// It is not there.
    Absent,
    Removed,
    Failed(String),
}

/// What is reported of the removal of the model.
pub struct ModelDeletion {
    pub success: bool,
    pub deleted: Vec<String>,
    pub errors: Vec<String>,
}

/// The names of the files that were removed.
pub open spec fn removed_names(files: Seq<ModelFile>, removals: Seq<Removal>) -> Seq<Seq<char>>
    decreases removals.len(),
{
    if removals.len() == 0 {
        seq![]
    } else {
        let before = removed_names(files, removals.drop_last());
        if removals.last() is Removed {
            before.push(files[removals.len() - 1].name@)
        } else {
            before
        }
    }
}

/// The errors of the files that could not be removed.
pub open spec fn removal_errors(files: Seq<ModelFile>, removals: Seq<Removal>) -> Seq<Seq<char>>
    decreases removals.len(),
{
    if removals.len() == 0 {
        seq![]
    } else {
        let before = removal_errors(files, removals.drop_last());
        match removals.last() {
            Removal::Failed(why) => before.push(
                files[removals.len() - 1].name@ + ": "@ + why@,
            ),
            _ => before,
        }
    }
}

/// The report on the removal of the model, given what came of each of its files.
pub fn delete_model(removals: &Vec<Removal>) -> (r: ModelDeletion)
    requires
        removals@.len() == model_file_list().len(),
    ensures
        text::texts(r.deleted@) == removed_names(model_file_list(), removals@),
        text::texts(r.errors@) == removal_errors(model_file_list(), removals@),
        r.success == (forall|i: int|
            0 <= i < removals@.len() ==> !(#[trigger] removals@[i] is Failed)),
{
    let list = model_files();
    let mut deleted: Vec<String> = Vec::new();
    let mut errors: Vec<String> = Vec::new();
    let mut success = true;
    let mut i: usize = 0;
    assert(removals@.take(0) =~= Seq::<Removal>::empty());
    assert(text::texts(deleted@) =~= seq![]);
    assert(text::texts(errors@) =~= seq![]);
    while i < list.len()
        invariant
            list@ == model_file_list(),
            removals@.len() == list@.len(),
            i <= list@.len(),
            text::texts(deleted@) == removed_names(list@, removals@.take(i as int)),
            text::texts(errors@) == removal_errors(list@, removals@.take(i as int)),
            success == (forall|k: int| 0 <= k < i ==> !(#[trigger] removals@[k] is Failed)),
        decreases list@.len() - i,
    {
        let ghost now = removals@.take(i as int + 1);
        assert(now.drop_last() =~= removals@.take(i as int));
        assert(now.last() == removals@[i as int]);
        let ghost had = text::texts(deleted@);
        let ghost failed = text::texts(errors@);
        match &removals[i] {
            Removal::Absent => {},
            Removal::Removed => {
                deleted.push(list[i].name.to_owned());
                assert(text::texts(deleted@) =~= had.push(list@[i as int].name@));
            },
            Removal::Failed(why) => {
                success = false;
                let error = text::concat_three(list[i].name, ": ", why.as_str());
                let ghost line = error@;
                errors.push(error);
                assert(text::texts(errors@) =~= failed.push(line));
            },
        }
        i += 1;
    }
    assert(removals@.take(i as int) =~= removals@);
    ModelDeletion { success, deleted, errors }
}

/// The removal of the model succeeds if and only if it has no errors to report.
pub proof fn law_success_means_no_errors(files: Seq<ModelFile>, removals: Seq<Removal>)
    ensures
        removal_errors(files, removals).len() == 0 <==> forall|i: int|
            0 <= i < removals.len() ==> !(#[trigger] removals[i] is Failed),
    decreases removals.len(),
{
    if removals.len() > 0 {
        let before = removals.drop_last();
        law_success_means_no_errors(files, before);
        if removal_errors(files, removals).len() == 0 {
            assert forall|i: int| 0 <= i < removals.len() implies !(#[trigger] removals[i] is Failed) by {
                if i < before.len() {
                    assert(before[i] == removals[i]);
                }
            }
        } else if !(removals.last() is Failed) {
            let i = choose|i: int| 0 <= i < before.len() && #[trigger] before[i] is Failed;
            assert(removals[i] is Failed);
        } else {
            assert(removals[removals.len() - 1] is Failed);
        }
    }
}

proof fn lemma_nothing_counts(probes: Seq<FileProbe>)
    requires
        forall|i: int| 0 <= i < probes.len() ==> !(#[trigger] probes[i]).present,
    ensures
        total_size(probes) == 0,
    decreases probes.len(),
{
    if probes.len() > 0 {
        let before = probes.drop_last();
        assert forall|i: int| 0 <= i < before.len() implies !(#[trigger] before[i]).present by {
            assert(before[i] == probes[i]);
        }
        lemma_nothing_counts(before);
        assert(!probes[probes.len() - 1].present);
    }
}

/// After a removal of the model without an error, what is found of its files adds up
/// to no installed model and to no bytes. A file that could be removed, or was not
/// there, is not found.
pub proof fn law_model_is_gone_after_its_removal(removals: Seq<Removal>, probes: Seq<FileProbe>)
    requires
        removals.len() == model_file_list().len(),
        probes.len() == model_file_list().len(),
        forall|i: int|
            0 <= i < probes.len() && !(#[trigger] removals[i] is Failed) ==> !probes[i].present,
        removal_errors(model_file_list(), removals).len() == 0,
    ensures
        !(forall|i: int| 0 <= i < probes.len() ==> (#[trigger] probes[i]).present),
        total_size(probes) == 0,
{
    law_success_means_no_errors(model_file_list(), removals);
    assert forall|i: int| 0 <= i < probes.len() implies !(#[trigger] probes[i]).present by {
        assert(!(removals[i] is Failed));
    }
    lemma_nothing_counts(probes);
    assert(!probes[0].present);
}

} // verus!
