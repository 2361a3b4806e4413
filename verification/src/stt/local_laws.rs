//! What is found, fetched and removed of the runtime and the model.
use crate::stt::download;
use crate::stt::download::Extraction;
use crate::stt::local;
use crate::stt::local::{
    DeleteReport, EntryAction, FileProbe, FileStatus, InitAction, ModelDeletion, ModelFile,
    ModelStatus, OrtStatus, Removal, TargetArch, TargetOs,
};
use vstd::prelude::*;

verus! {

// The runtime.

/// Each system has its own name for the library.
pub proof fn law_names_of_the_library()
    ensures
        local::ort_lib_filename(TargetOs::MacOs) == "libonnxruntime.dylib"@,
        local::ort_lib_filename(TargetOs::Linux) == "libonnxruntime.so"@,
        local::ort_lib_filename(TargetOs::Windows) == "onnxruntime.dll"@,
{
}

/// There is a runtime for every system on both known processors, and on Windows whatever
/// the processor is. Each comes from an address of its own.
pub proof fn law_addresses_of_the_runtime(os: TargetOs, arch: TargetArch)
    ensures
        local::ort_download_url(os, arch) is None <==> os != TargetOs::Windows && arch
            == TargetArch::Other,
        os == TargetOs::MacOs && arch == TargetArch::Aarch64 ==> local::ort_download_url(os, arch)
            == Some(
            "https://github.com/microsoft/onnxruntime/releases/download/v1.23.2/onnxruntime-osx-arm64-1.23.2.tgz"@,
        ),
        os == TargetOs::MacOs && arch == TargetArch::X86_64 ==> local::ort_download_url(os, arch)
            == Some(
            "https://github.com/microsoft/onnxruntime/releases/download/v1.23.2/onnxruntime-osx-x86_64-1.23.2.tgz"@,
        ),
        os == TargetOs::Linux && arch == TargetArch::X86_64 ==> local::ort_download_url(os, arch)
            == Some(
            "https://github.com/microsoft/onnxruntime/releases/download/v1.23.2/onnxruntime-linux-x64-1.23.2.tgz"@,
        ),
        os == TargetOs::Linux && arch == TargetArch::Aarch64 ==> local::ort_download_url(os, arch)
            == Some(
            "https://github.com/microsoft/onnxruntime/releases/download/v1.23.2/onnxruntime-linux-aarch64-1.23.2.tgz"@,
        ),
        os == TargetOs::Windows ==> local::ort_download_url(os, arch) == Some(
            "https://github.com/microsoft/onnxruntime/releases/download/v1.23.2/onnxruntime-win-x64-1.23.2.zip"@,
        ),
{
}

/// The runtime is installed if and only if its library is among the files.
pub proof fn law_installed_runtime(files: Seq<Seq<char>>, os: TargetOs)
    ensures
        local::ort_installed(files, os) <==> exists|i: int|
            0 <= i < files.len() && #[trigger] files[i] == local::ort_lib_filename(os),
{
    if local::ort_installed(files, os) {
        let i = choose|i: int| 0 <= i < files.len() && files[i] == local::ort_lib_filename(os);
        assert(files[i] == local::ort_lib_filename(os));
    }
}

/// The report on the runtime says whether it is installed, in which version and where,
/// how large it is if that can be read, and whether there is one for the machine.
pub proof fn law_status_of_the_runtime(
    r: OrtStatus,
    files: Seq<Seq<char>>,
    path: Seq<char>,
    size: Option<u64>,
    os: TargetOs,
    arch: TargetArch,
)
    requires
        local::is_ort_status(r, files, path, size, os, arch),
    ensures
        r.installed <==> files.contains(local::ort_lib_filename(os)),
        r.version@ == "1.23.2"@,
        r.path@ == path,
        r.installed && size is Some ==> r.size == size->0,
        !r.installed || size is None ==> r.size == 0,
        r.platform_supported <==> os == TargetOs::Windows || arch != TargetArch::Other,
{
    law_addresses_of_the_runtime(os, arch);
}

/// The report on the removal of the runtime tells a success only if the runtime was not
/// installed or its directory was removed, and an error with its cause.
pub proof fn law_report_on_the_removal(
    r: DeleteReport,
    files: Seq<Seq<char>>,
    os: TargetOs,
    lib_dir: Seq<char>,
    removed: Result<(), String>,
)
    requires
        local::is_delete_report(r, files, os, lib_dir, removed),
    ensures
        ({
            let installed = files.contains(local::ort_lib_filename(os));
            &&& r is NotInstalled <==> !installed
            &&& r matches DeleteReport::NotInstalled { message } ==> message@
                == "ONNX Runtime was not installed"@
            &&& r is Deleted <==> installed && removed is Ok
            &&& r matches DeleteReport::Deleted { dir } ==> dir@ == lib_dir
            &&& r is Failed <==> installed && removed is Err
            &&& r matches DeleteReport::Failed { error } ==> error@ == "Failed to delete: "@
                + removed->Err_0@
        }),
{
}

// The runtime's archive.

/// The text is a number: digits, and at least one.
pub open spec fn all_digits(s: Seq<char>) -> bool {
    s.len() > 0 && forall|i: int| 0 <= i < s.len() ==> '0' <= #[trigger] s[i] <= '9'
}

/// The path ends in the name, three numbers with points between, and a tail.
pub open spec fn ends_in_three_numbers(
    path: Seq<char>,
    name: Seq<char>,
    tail: Seq<char>,
    front: Seq<char>,
    x: Seq<char>,
    y: Seq<char>,
    z: Seq<char>,
) -> bool {
    &&& all_digits(x) && all_digits(y) && all_digits(z)
    &&& path == front + name + x + seq!['.'] + y + seq!['.'] + z + tail
}

/// On Linux a regular file whose name ends in a whole version is the library, in
/// whatever directory it stands.
pub proof fn law_library_on_linux(
    path: Seq<char>,
    front: Seq<char>,
    x: Seq<char>,
    y: Seq<char>,
    z: Seq<char>,
)
    requires
        ends_in_three_numbers(path, "libonnxruntime.so."@, seq![], front, x, y, z),
    ensures
        local::is_library_entry(path, true, TargetOs::Linux),
        !local::is_library_entry(path, false, TargetOs::Linux),
{
    let w = local::versioned("libonnxruntime.so."@, x, y, z);
    assert(path =~= front + w);
    assert(path.subrange(path.len() - w.len(), path.len() as int) =~= w);
    assert(w.is_suffix_of(path));
    assert(local::is_number(x) && local::is_number(y) && local::is_number(z));
}

/// On Linux nothing else is the library.
pub proof fn law_nothing_else_on_linux(path: Seq<char>, regular_file: bool)
    requires
        local::is_library_entry(path, regular_file, TargetOs::Linux),
    ensures
        regular_file,
        exists|front: Seq<char>, x: Seq<char>, y: Seq<char>, z: Seq<char>| #[trigger]
            ends_in_three_numbers(path, "libonnxruntime.so."@, seq![], front, x, y, z),
{
    lemma_three_numbers(path, "libonnxruntime.so."@, seq![]);
}

proof fn lemma_three_numbers(path: Seq<char>, name: Seq<char>, tail: Seq<char>)
    requires
        tail.is_suffix_of(path),
        local::ends_in_version(path.take(path.len() - tail.len()), name) || (tail.len() == 0
            && local::ends_in_version(path, name)),
    ensures
        exists|front: Seq<char>, x: Seq<char>, y: Seq<char>, z: Seq<char>| #[trigger]
            ends_in_three_numbers(path, name, tail, front, x, y, z),
{
    let stem = path.take(path.len() - tail.len());
    if tail.len() == 0 {
        assert(stem =~= path);
    }
    let (x, y, z) = choose|x: Seq<char>, y: Seq<char>, z: Seq<char>|
        {
            &&& local::is_number(x)
            &&& local::is_number(y)
            &&& local::is_number(z)
            &&& (#[trigger] local::versioned(name, x, y, z)).is_suffix_of(stem)
        };
    let w = local::versioned(name, x, y, z);
    let front = stem.take(stem.len() - w.len());
    assert(stem =~= front + stem.subrange(stem.len() - w.len(), stem.len() as int));
    assert(path =~= stem + path.subrange(path.len() - tail.len(), path.len() as int));
    assert(path =~= front + name + x + seq!['.'] + y + seq!['.'] + z + tail);
    assert forall|s: Seq<char>| local::is_number(s) implies all_digits(s) by {
        assert forall|i: int| 0 <= i < s.len() implies '0' <= #[trigger] s[i] <= '9' by {
            assert(local::is_digit(s[i]));
        }
    }
    assert(ends_in_three_numbers(path, name, tail, front, x, y, z));
}

/// On macOS a regular file whose name ends in a whole version, before the usual ending,
/// is the library, unless it stands among the symbols for debuggers.
pub proof fn law_library_on_macos(
    path: Seq<char>,
    front: Seq<char>,
    x: Seq<char>,
    y: Seq<char>,
    z: Seq<char>,
)
    requires
        ends_in_three_numbers(path, "libonnxruntime."@, ".dylib"@, front, x, y, z),
    ensures
        local::is_library_entry(path, true, TargetOs::MacOs) <==> !crate::text::holds_text(
            path,
            ".dSYM"@,
        ),
        !local::is_library_entry(path, false, TargetOs::MacOs),
{
    let w = local::versioned("libonnxruntime."@, x, y, z);
    let tail = ".dylib"@;
    let stem = path.take(path.len() - tail.len());
    assert(path.subrange(path.len() - tail.len(), path.len() as int) =~= tail);
    assert(stem =~= front + w);
    assert(stem.subrange(stem.len() - w.len(), stem.len() as int) =~= w);
    assert(w.is_suffix_of(stem));
    assert(local::is_number(x) && local::is_number(y) && local::is_number(z));
}

/// On macOS nothing else is the library.
pub proof fn law_nothing_else_on_macos(path: Seq<char>, regular_file: bool)
    requires
        local::is_library_entry(path, regular_file, TargetOs::MacOs),
    ensures
        regular_file,
        !crate::text::holds_text(path, ".dSYM"@),
        exists|front: Seq<char>, x: Seq<char>, y: Seq<char>, z: Seq<char>| #[trigger]
            ends_in_three_numbers(path, "libonnxruntime."@, ".dylib"@, front, x, y, z),
{
    lemma_three_numbers(path, "libonnxruntime."@, ".dylib"@);
}

/// On Windows every entry with the name of the library is it.
pub proof fn law_library_on_windows(path: Seq<char>, regular_file: bool)
    ensures
        local::is_library_entry(path, regular_file, TargetOs::Windows) <==> exists|front: Seq<char>|
            path == #[trigger] (front + "onnxruntime.dll"@),
{
    let name = "onnxruntime.dll"@;
    if local::is_library_entry(path, regular_file, TargetOs::Windows) {
        let front = path.take(path.len() - name.len());
        assert(path =~= front + path.subrange(path.len() - name.len(), path.len() as int));
        assert(path == front + name);
    }
    if exists|front: Seq<char>| path == #[trigger] (front + name) {
        let front = choose|front: Seq<char>| path == #[trigger] (front + name);
        assert(path.subrange(path.len() - name.len(), path.len() as int) =~= name);
    }
}

/// An entry is taken if and only if it is the library.
pub proof fn law_entries(path: Seq<char>, regular_file: bool, os: TargetOs)
    ensures
        local::action_on(path, regular_file, os) == EntryAction::TakeAndStop
            <==> local::is_library_entry(path, regular_file, os),
        local::action_on(path, regular_file, os) == EntryAction::PassOver
            <==> !local::is_library_entry(path, regular_file, os),
{
}

// The model.

/// The model has four files, each of which comes from an address that ends in its name.
pub proof fn law_files_of_the_model()
    ensures
        ({
            let files = local::model_file_list();
            let base = "https://huggingface.co/altunenes/parakeet-rs/resolve/main/nemotron-speech-streaming-en-0.6b/"@;
            &&& files.len() == 4
            &&& files[0].name@ == "encoder.onnx"@
            &&& files[1].name@ == "encoder.onnx.data"@
            &&& files[2].name@ == "decoder_joint.onnx"@
            &&& files[3].name@ == "tokenizer.model"@
            &&& forall|i: int| 0 <= i < 4 ==> (#[trigger] files[i]).url@ == base + files[i].name@
        }),
{
    reveal_strlit(
        "https://huggingface.co/altunenes/parakeet-rs/resolve/main/nemotron-speech-streaming-en-0.6b/",
    );
    reveal_strlit(
        "https://huggingface.co/altunenes/parakeet-rs/resolve/main/nemotron-speech-streaming-en-0.6b/encoder.onnx",
    );
    reveal_strlit(
        "https://huggingface.co/altunenes/parakeet-rs/resolve/main/nemotron-speech-streaming-en-0.6b/encoder.onnx.data",
    );
    reveal_strlit(
        "https://huggingface.co/altunenes/parakeet-rs/resolve/main/nemotron-speech-streaming-en-0.6b/decoder_joint.onnx",
    );
    reveal_strlit(
        "https://huggingface.co/altunenes/parakeet-rs/resolve/main/nemotron-speech-streaming-en-0.6b/tokenizer.model",
    );
    reveal_strlit("encoder.onnx");
    reveal_strlit("encoder.onnx.data");
    reveal_strlit("decoder_joint.onnx");
    reveal_strlit("tokenizer.model");
    let files = local::model_file_list();
    let base = "https://huggingface.co/altunenes/parakeet-rs/resolve/main/nemotron-speech-streaming-en-0.6b/"@;
    assert(files[0].url@ =~= base + files[0].name@);
    assert(files[1].url@ =~= base + files[1].name@);
    assert(files[2].url@ =~= base + files[2].name@);
    assert(files[3].url@ =~= base + files[3].name@);
}

/// The sizes of two lists of files add up.
pub proof fn law_sizes_add_up(a: Seq<FileProbe>, b: Seq<FileProbe>)
    ensures
        local::total_size(a + b) == local::total_size(a) + local::total_size(b),
    decreases b.len(),
{
    if b.len() == 0 {
        assert(a + b =~= a);
    } else {
        law_sizes_add_up(a, b.drop_last());
        assert((a + b).drop_last() =~= a + b.drop_last());
        assert((a + b).last() == b.last());
    }
}

/// A file counts with its size if it is there and that can be read, and not at all
/// otherwise.
pub proof fn law_size_of_one_file(p: FileProbe)
    ensures
        p.present && p.size is Some ==> local::total_size(seq![p]) == p.size->0,
        !p.present || p.size is None ==> local::total_size(seq![p]) == 0,
{
    assert(seq![p].drop_last() =~= seq![]);
    assert(seq![p].last() == p);
    assert(local::total_size(seq![]) == 0);
}

/// The lines on two lists of files, one behind the other, are those on the one and then
/// those on the other.
pub proof fn law_lines_together(files: Seq<ModelFile>, a: Seq<FileProbe>, b: Seq<FileProbe>)
    requires
        a.len() + b.len() <= files.len(),
    ensures
        local::file_lines(files, a + b) == local::file_lines(files, a) + local::file_lines(
            files.skip(a.len() as int),
            b,
        ),
    decreases b.len(),
{
    let rest = files.skip(a.len() as int);
    if b.len() == 0 {
        assert(a + b =~= a);
        assert(local::file_lines(files, a) + local::file_lines(rest, b) =~= local::file_lines(
            files,
            a,
        ));
    } else {
        law_lines_together(files, a, b.drop_last());
        assert((a + b).drop_last() =~= a + b.drop_last());
        assert((a + b).last() == b.last());
        assert(rest[b.len() - 1] == files[(a + b).len() - 1]);
        assert(local::file_lines(files, a + b) =~= local::file_lines(files, a)
            + local::file_lines(rest, b));
    }
}

/// A file that is there has a line with its size, if that can be read, and no line
/// otherwise; a file that is not there has a line that says so.
pub proof fn law_line_on_one_file(file: ModelFile, p: FileProbe)
    ensures
        p.present && p.size is Some ==> local::file_lines(seq![file], seq![p]) == seq![
            (file.name@, true, p.size->0),
        ],
        p.present && p.size is None ==> local::file_lines(seq![file], seq![p]).len() == 0,
        !p.present ==> local::file_lines(seq![file], seq![p]) == seq![(file.name@, false, 0u64)],
{
    assert(seq![p].drop_last() =~= seq![]);
    assert(seq![p].last() == p);
    let before = local::file_lines(seq![file], Seq::<FileProbe>::empty());
    assert(before =~= seq![]);
    if !p.present {
        assert(local::file_lines(seq![file], seq![p]) =~= seq![(file.name@, false, 0u64)]);
    } else if p.size is Some {
        assert(local::file_lines(seq![file], seq![p]) =~= seq![(file.name@, true, p.size->0)]);
    }
}

/// A line on a file is seen as it is.
pub proof fn law_lines_are_seen_as_they_are(files: Seq<FileStatus>, i: int)
    requires
        0 <= i < files.len(),
    ensures
        local::line_views(files).len() == files.len(),
        local::line_views(files)[i].0 == files[i].name@,
        local::line_views(files)[i].1 == files[i].present,
        local::line_views(files)[i].2 == files[i].size,
{
}

/// What was removed of two lists of files, one behind the other, and what could not be,
/// is that of the one and then that of the other.
pub proof fn law_removals_together(files: Seq<ModelFile>, a: Seq<Removal>, b: Seq<Removal>)
    requires
        a.len() + b.len() <= files.len(),
    ensures
        local::removed_names(files, a + b) == local::removed_names(files, a)
            + local::removed_names(files.skip(a.len() as int), b),
        local::removal_errors(files, a + b) == local::removal_errors(files, a)
            + local::removal_errors(files.skip(a.len() as int), b),
    decreases b.len(),
{
    let rest = files.skip(a.len() as int);
    if b.len() == 0 {
        assert(a + b =~= a);
        assert(local::removed_names(files, a) + local::removed_names(rest, b)
            =~= local::removed_names(files, a));
        assert(local::removal_errors(files, a) + local::removal_errors(rest, b)
            =~= local::removal_errors(files, a));
    } else {
        law_removals_together(files, a, b.drop_last());
        assert((a + b).drop_last() =~= a + b.drop_last());
        assert((a + b).last() == b.last());
        assert(rest[b.len() - 1] == files[(a + b).len() - 1]);
        assert(local::removed_names(files, a + b) =~= local::removed_names(files, a)
            + local::removed_names(rest, b));
        assert(local::removal_errors(files, a + b) =~= local::removal_errors(files, a)
            + local::removal_errors(rest, b));
    }
}

/// A file that was removed is named; one that could not be removed is named with the
/// reason; one that was not there is not spoken of.
pub proof fn law_removal_of_one_file(file: ModelFile, r: Removal)
    ensures
        r is Removed ==> local::removed_names(seq![file], seq![r]) == seq![file.name@],
        !(r is Removed) ==> local::removed_names(seq![file], seq![r]).len() == 0,
        r matches Removal::Failed(why) ==> local::removal_errors(seq![file], seq![r]) == seq![
            file.name@ + ": "@ + why@,
        ],
        !(r is Failed) ==> local::removal_errors(seq![file], seq![r]).len() == 0,
{
    assert(seq![r].drop_last() =~= seq![]);
    assert(seq![r].last() == r);
    assert(local::removed_names(seq![file], Seq::<Removal>::empty()) =~= seq![]);
    assert(local::removal_errors(seq![file], Seq::<Removal>::empty()) =~= seq![]);
    if r is Removed {
        assert(local::removed_names(seq![file], seq![r]) =~= seq![file.name@]);
    }
    if let Removal::Failed(why) = r {
        assert(local::removal_errors(seq![file], seq![r]) =~= seq![file.name@ + ": "@ + why@]);
    }
}

// Reports.

/// The model is installed if and only if all its files are there; the report has their
/// sizes together.
pub proof fn law_status_of_the_model(path: String, probes: &Vec<FileProbe>, r: ModelStatus)
    requires
        call_ensures(local::get_model_status, (path, probes), r),
    ensures
        r.path == path,
        !r.installed <==> exists|i: int| 0 <= i < probes@.len() && !(#[trigger] probes@[i]).present,
        r.total_size == local::total_size(probes@),
        local::line_views(r.files@) == local::file_lines(local::model_file_list(), probes@),
{
}

/// A removal of the model is a success if and only if no file failed, and then it has no
/// errors.
pub proof fn law_removal_of_the_model(removals: &Vec<Removal>, r: ModelDeletion)
    requires
        call_ensures(local::delete_model, (removals,), r),
    ensures
        !r.success <==> exists|i: int| 0 <= i < removals@.len() && #[trigger] removals@[i] is Failed,
        r.success <==> r.errors@.len() == 0,
        crate::text::texts(r.deleted@) == local::removed_names(
            local::model_file_list(),
            removals@,
        ),
{
    local::law_success_means_no_errors(local::model_file_list(), removals@);
    assert(crate::text::texts(r.errors@).len() == r.errors@.len());
}

/// The runtime is loaded once, if its library is there; otherwise its path is told.
pub proof fn law_runtime_is_loaded_once(
    initialized: bool,
    lib_exists: bool,
    lib_path: &str,
    r: InitAction,
)
    requires
        call_ensures(local::init_ort, (initialized, lib_exists, lib_path), r),
    ensures
        r is Ready <==> initialized,
        r is Load <==> !initialized && lib_exists,
        r is Fail <==> !initialized && !lib_exists,
        r is Fail ==> r->Fail_0@ == "ONNX Runtime library not found at "@ + lib_path@
            + ". Please download it first."@,
{
}

/// What is configured comes before what is usual.
pub proof fn law_configured_directories(variable: Option<String>, usual: String, r: String)
    requires
        call_ensures(local::configured_dir, (variable, usual), r),
    ensures
        variable is Some ==> r == variable->0,
        variable is None ==> r == usual,
{
}

/// An extraction is done if and only if the library is there in the end.
pub proof fn law_extraction(library_exists: bool, r: Extraction)
    requires
        call_ensures(download::extraction_result, (library_exists,), r),
    ensures
        r is Done <==> library_exists,
        !library_exists ==> r is Failed && r->Failed_0@ == "Library file not found in archive"@,
{
}

} // verus!
