use vstd::prelude::*;
use vstd::slice::slice_to_vec;
use vstd::string::StringSliceAdditionalSpecFns;

use crate::patch::{substitution_views, Substitution};

verus! {

/// A native library fetched as a release archive of a GitHub repository and
/// built from source at a pinned version tag.
pub struct VendorLibrary {
    /// The library's name, which is also the name of its static archive.
    pub name: String,
    /// `owner/project` on GitHub.
    pub repository: String,
    /// The pinned release tag.
    pub version: String,
}

/// Where the release archive of `repository` at tag `version` is downloaded from.
pub open spec fn archive_url_of(repository: Seq<char>, version: Seq<char>) -> Seq<char> {
    "https://github.com/"@ + repository + "/archive/refs/tags/"@ + version + ".tar.gz"@
}

/// The directory that the release archive unpacks to.
pub open spec fn unpacked_dir_of(name: Seq<char>, version: Seq<char>) -> Seq<char> {
    name + "-"@ + version
}

/// The file name of the static archive that building `name` produces.
pub open spec fn static_lib_file_of(name: Seq<char>) -> Seq<char> {
    "lib"@ + name + ".a"@
}

/// The build directive that adds `dir` to the linker's search path.
pub open spec fn link_search_line(dir: Seq<char>) -> Seq<char> {
    "cargo:rustc-link-search="@ + dir
}

/// The build directive that links the static archive of `name`.
pub open spec fn static_link_line(name: Seq<char>) -> Seq<char> {
    "cargo:rustc-link-lib=static="@ + name
}

/// The build directive that links the C++ runtime that the OCR engine needs.
pub open spec fn cxx_runtime_line() -> Seq<char> {
    "cargo:rustc-link-lib=static:-bundle=c++"@
}

impl VendorLibrary {
    /// The image-processing library, pinned at 1.83.1.
    pub fn leptonica() -> (r: VendorLibrary)
        ensures
            r.name@ == "leptonica"@,
            r.repository@ == "DanBloomberg/leptonica"@,
            r.version@ == "1.83.1"@,
    {
        VendorLibrary {
            name: String::from_str("leptonica"),
            repository: String::from_str("DanBloomberg/leptonica"),
            version: String::from_str("1.83.1"),
        }
    }

    /// The OCR engine, pinned at 5.3.0.
    pub fn tesseract() -> (r: VendorLibrary)
        ensures
            r.name@ == "tesseract"@,
            r.repository@ == "tesseract-ocr/tesseract"@,
            r.version@ == "5.3.0"@,
    {
        VendorLibrary {
            name: String::from_str("tesseract"),
            repository: String::from_str("tesseract-ocr/tesseract"),
            version: String::from_str("5.3.0"),
        }
    }

    /// The URL of the pinned release archive.
    pub fn archive_url(&self) -> (r: String)
        ensures
            r@ == archive_url_of(self.repository@, self.version@),
    {
        String::from_str("https://github.com/").concat(self.repository.as_str()).concat(
            "/archive/refs/tags/",
        ).concat(self.version.as_str()).concat(".tar.gz")
    }

    /// The name of the directory that the archive unpacks to.
    pub fn unpacked_dir_name(&self) -> (r: String)
        ensures
            r@ == unpacked_dir_of(self.name@, self.version@),
    {
        self.name.clone().concat("-").concat(self.version.as_str())
    }

    /// The file name of the static archive that the build installs.
    pub fn static_lib_file(&self) -> (r: String)
        ensures
            r@ == static_lib_file_of(self.name@),
    {
        String::from_str("lib").concat(self.name.as_str()).concat(".a")
    }
}

/// The build directives that link both native libraries, found in
/// `leptonica_lib_dir` and `tesseract_lib_dir`, and the C++ runtime.
pub fn link_directives(leptonica_lib_dir: &str, tesseract_lib_dir: &str) -> (r: Vec<String>)
    ensures
        r@.len() == 5,
        r@[0]@ == link_search_line(leptonica_lib_dir@),
        r@[1]@ == link_search_line(tesseract_lib_dir@),
        r@[2]@ == static_link_line("tesseract"@),
        r@[3]@ == static_link_line("leptonica"@),
        r@[4]@ == cxx_runtime_line(),
{
    let mut r: Vec<String> = Vec::new();
    r.push(String::from_str("cargo:rustc-link-search=").concat(leptonica_lib_dir));
    r.push(String::from_str("cargo:rustc-link-search=").concat(tesseract_lib_dir));
    r.push(String::from_str("cargo:rustc-link-lib=static=").concat("tesseract"));
    r.push(String::from_str("cargo:rustc-link-lib=static=").concat("leptonica"));
    r.push(String::from_str("cargo:rustc-link-lib=static:-bundle=c++"));
    r
}

/// The options that the OCR engine is configured with: optional
/// dependencies, graphics, tests and training tools off, and the system's
/// ICU for text shaping.
pub fn tesseract_configure_args() -> (r: Vec<String>)
    ensures
        r@.len() == 7,
        r@[0]@ == "-DHAVE_LIBARCHIVE=OFF"@,
        r@[1]@ == "-DHAVELIBCURL=OFF"@,
        r@[2]@ == "-DHAVE_TIFFIO_H=OFF"@,
        r@[3]@ == "-DGRAPHICS_DISABLED=ON"@,
        r@[4]@ == "-DBUILD_TRAINING_TOOLS=OFF"@,
        r@[5]@ == "-DBUILD_TESTS=OFF"@,
        r@[6]@ == "-DUSE_SYSTEM_ICU=ON"@,
{
    let mut r: Vec<String> = Vec::new();
    r.push(String::from_str("-DHAVE_LIBARCHIVE=OFF"));
    r.push(String::from_str("-DHAVELIBCURL=OFF"));
    r.push(String::from_str("-DHAVE_TIFFIO_H=OFF"));
    r.push(String::from_str("-DGRAPHICS_DISABLED=ON"));
    r.push(String::from_str("-DBUILD_TRAINING_TOOLS=OFF"));
    r.push(String::from_str("-DBUILD_TESTS=OFF"));
    r.push(String::from_str("-DUSE_SYSTEM_ICU=ON"));
    r
}

/// The whole content of the image library's byte-order header.
pub fn endianness_header(big_endian: bool) -> (r: String)
    ensures
        r@ == (if big_endian {
            "#define L_BIG_ENDIAN\n"@
        } else {
            "#define L_LITTLE_ENDIAN\n"@
        }),
{
    if big_endian {
        String::from_str("#define L_BIG_ENDIAN\n")
    } else {
        String::from_str("#define L_LITTLE_ENDIAN\n")
    }
}

/// A substitution of one literal for another, as bytes.
pub open spec fn literal(from: &str, to: &str) -> (Seq<u8>, Seq<u8>) {
    (from.spec_bytes(), to.spec_bytes())
}

fn substitution(from: &str, to: &str) -> (r: Substitution)
    ensures
        r@ == literal(from, to),
{
    Substitution { from: slice_to_vec(from.as_bytes()), to: slice_to_vec(to.as_bytes()) }
}

/// The substitutions on `src/environ.h`: codec and compression support is
/// first switched off and then undefined, and console output is disabled.
pub open spec fn environ_h_rules() -> Seq<(Seq<u8>, Seq<u8>)> {
    seq![
        literal("#define  HAVE_LIBJPEG       1", "#define  HAVE_LIBJPEG       0"),
        literal("#define  HAVE_LIBTIFF       1", "#define  HAVE_LIBTIFF       0"),
        literal("#define  HAVE_LIBPNG        1", "#define  HAVE_LIBPNG        0"),
        literal("#define  HAVE_LIBZ          1", "#define  HAVE_LIBZ          0"),
        literal("#define  HAVE_LIBJPEG       0", "#undef HAVE_LIBJPEG"),
        literal("#define  HAVE_LIBTIFF       0", "#undef HAVE_LIBTIFF"),
        literal("#define  HAVE_LIBPNG        0", "#undef HAVE_LIBPNG"),
        literal("#define  HAVE_LIBZ          0", "#undef HAVE_LIBZ"),
        literal("#ifdef  NO_CONSOLE_IO", "#define NO_CONSOLE_IO\n#ifdef  NO_CONSOLE_IO"),
    ]
}

/// The substitutions on `cmake/Configure.cmake`: every optional codec and
/// compression library is reported absent.
pub open spec fn configure_cmake_rules() -> Seq<(Seq<u8>, Seq<u8>)> {
    seq![
        literal("HAVE_LIBGIF 1", "HAVE_LIBGIF 0"),
        literal("HAVE_LIBJPEG 1", "HAVE_LIBJPEG 0"),
        literal("HAVE_LIBJP2K 1", "HAVE_LIBJP2K 0"),
        literal("HAVE_LIBPNG 1", "HAVE_LIBPNG 0"),
        literal("HAVE_LIBTIFF 1", "HAVE_LIBTIFF 0"),
        literal("HAVE_LIBWEBP 1", "HAVE_LIBWEBP 0"),
        literal("HAVE_LIBWEBP_ANIM 1", "HAVE_LIBWEBP_ANIM 0"),
        literal("HAVE_LIBZ 1", "HAVE_LIBZ 0"),
    ]
}

/// The substitution on `prog/makefile.static`: the codec and compression
/// libraries leave the link line.
pub open spec fn makefile_static_rules() -> Seq<(Seq<u8>, Seq<u8>)> {
    seq![
        literal(
            "ALL_LIBS =\t$(LEPTLIB) -ltiff -ljpeg -lpng -lz -lm",
            "ALL_LIBS =\t$(LEPTLIB) -lm",
        ),
    ]
}

/// The substitutions to make on one file of a staged source tree, found at
/// `dir/file` under the tree's root.
pub struct FilePatch {
    pub dir: String,
    pub file: String,
    pub substitutions: Vec<Substitution>,
}

/// The patches that restrict the image library to its built-in formats.
pub fn leptonica_source_patches() -> (r: Vec<FilePatch>)
    ensures
        r@.len() == 3,
        r@[0].dir@ == "src"@,
        r@[0].file@ == "environ.h"@,
        substitution_views(r@[0].substitutions@) == environ_h_rules(),
        r@[1].dir@ == "cmake"@,
        r@[1].file@ == "Configure.cmake"@,
        substitution_views(r@[1].substitutions@) == configure_cmake_rules(),
        r@[2].dir@ == "prog"@,
        r@[2].file@ == "makefile.static"@,
        substitution_views(r@[2].substitutions@) == makefile_static_rules(),
{
    let mut environ: Vec<Substitution> = Vec::new();
    environ.push(substitution("#define  HAVE_LIBJPEG       1", "#define  HAVE_LIBJPEG       0"));
    environ.push(substitution("#define  HAVE_LIBTIFF       1", "#define  HAVE_LIBTIFF       0"));
    environ.push(substitution("#define  HAVE_LIBPNG        1", "#define  HAVE_LIBPNG        0"));
    environ.push(substitution("#define  HAVE_LIBZ          1", "#define  HAVE_LIBZ          0"));
    environ.push(substitution("#define  HAVE_LIBJPEG       0", "#undef HAVE_LIBJPEG"));
    environ.push(substitution("#define  HAVE_LIBTIFF       0", "#undef HAVE_LIBTIFF"));
    environ.push(substitution("#define  HAVE_LIBPNG        0", "#undef HAVE_LIBPNG"));
    environ.push(substitution("#define  HAVE_LIBZ          0", "#undef HAVE_LIBZ"));
    environ.push(
        substitution("#ifdef  NO_CONSOLE_IO", "#define NO_CONSOLE_IO\n#ifdef  NO_CONSOLE_IO"),
    );
    assert(substitution_views(environ@) =~= environ_h_rules());

    let mut configure: Vec<Substitution> = Vec::new();
    configure.push(substitution("HAVE_LIBGIF 1", "HAVE_LIBGIF 0"));
    configure.push(substitution("HAVE_LIBJPEG 1", "HAVE_LIBJPEG 0"));
    configure.push(substitution("HAVE_LIBJP2K 1", "HAVE_LIBJP2K 0"));
    configure.push(substitution("HAVE_LIBPNG 1", "HAVE_LIBPNG 0"));
    configure.push(substitution("HAVE_LIBTIFF 1", "HAVE_LIBTIFF 0"));
    configure.push(substitution("HAVE_LIBWEBP 1", "HAVE_LIBWEBP 0"));
    configure.push(substitution("HAVE_LIBWEBP_ANIM 1", "HAVE_LIBWEBP_ANIM 0"));
    configure.push(substitution("HAVE_LIBZ 1", "HAVE_LIBZ 0"));
    assert(substitution_views(configure@) =~= configure_cmake_rules());

    let mut makefile: Vec<Substitution> = Vec::new();
    makefile.push(
        substitution(
            "ALL_LIBS =\t$(LEPTLIB) -ltiff -ljpeg -lpng -lz -lm",
            "ALL_LIBS =\t$(LEPTLIB) -lm",
        ),
    );
    assert(substitution_views(makefile@) =~= makefile_static_rules());

    let mut r: Vec<FilePatch> = Vec::new();
    r.push(
        FilePatch {
            dir: String::from_str("src"),
            file: String::from_str("environ.h"),
            substitutions: environ,
        },
    );
    r.push(
        FilePatch {
            dir: String::from_str("cmake"),
            file: String::from_str("Configure.cmake"),
            substitutions: configure,
        },
    );
    r.push(
        FilePatch {
            dir: String::from_str("prog"),
            file: String::from_str("makefile.static"),
            substitutions: makefile,
        },
    );
    r
}

} // verus!
