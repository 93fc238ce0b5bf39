use vstd::prelude::*;

use crate::text::opt_text;

verus! {

/// Where the renderer library may be loaded from.
#[derive(Clone, Copy, Debug, PartialEq, Eq, Structural)]
pub enum LibrarySource {
    /// The directory given with `-pdfium`.
    Explicit,
    /// The directory in `$PDFIUM_PATH`.
    EnvDir,
    /// The directory of the executable.
    ExeDir,
    /// The system library path.
    System,
}

/// The places to try, in order: only the `-pdfium` directory when one is
/// given (it must bind, with no silent fallback to another library), else
/// `$PDFIUM_PATH` and the executable's directory where they exist, then the
/// system library path.
pub open spec fn spec_library_sources(explicit: bool, env_dir: bool, exe_dir: bool) -> Seq<LibrarySource> {
    if explicit {
        seq![LibrarySource::Explicit]
    } else {
        (if env_dir { seq![LibrarySource::EnvDir] } else { Seq::empty() })
            + (if exe_dir { seq![LibrarySource::ExeDir] } else { Seq::empty() })
            + seq![LibrarySource::System]
    }
}

/// Lists the places to load the renderer library from, first to last.
pub fn library_sources(explicit: bool, env_dir: bool, exe_dir: bool) -> (r: Vec<LibrarySource>)
    ensures
        r@ == spec_library_sources(explicit, env_dir, exe_dir),
        explicit ==> r@ == seq![LibrarySource::Explicit],
        !explicit ==> r@.len() >= 1 && r@.last() == LibrarySource::System,
{
    let mut r: Vec<LibrarySource> = Vec::new();
    if explicit {
        r.push(LibrarySource::Explicit);
        assert(r@ =~= seq![LibrarySource::Explicit]);
        return r;
    }
    if env_dir {
        r.push(LibrarySource::EnvDir);
    }
    if exe_dir {
        r.push(LibrarySource::ExeDir);
    }
    r.push(LibrarySource::System);
    assert(r@ =~= spec_library_sources(explicit, env_dir, exe_dir));
    r
}

/// The passwords to open the document with, in order. The renderer takes
/// one password while pdftoppm accepts either, so the user password is
/// tried first, then the owner password; with neither, one try without.
pub open spec fn spec_password_attempts(upw: Option<Seq<char>>, opw: Option<Seq<char>>) -> Seq<Option<Seq<char>>> {
    if upw is None && opw is None {
        seq![None]
    } else {
        (match upw { Some(u) => seq![Some(u)], None => Seq::empty() })
            + (match opw { Some(o) => seq![Some(o)], None => Seq::empty() })
    }
}

/// Lists the passwords to try when opening the document.
pub fn password_attempts(upw: Option<String>, opw: Option<String>) -> (r: Vec<Option<String>>)
    ensures
        r@.map_values(|p: Option<String>| opt_text(p)) == spec_password_attempts(opt_text(upw), opt_text(opw)),
{
    let ghost (u, o) = (opt_text(upw), opt_text(opw));
    let mut r: Vec<Option<String>> = Vec::new();
    if upw.is_none() && opw.is_none() {
        r.push(None);
        assert(r@.map_values(|p: Option<String>| opt_text(p)) =~= spec_password_attempts(u, o));
        return r;
    }
    if let Some(p) = upw {
        r.push(Some(p));
    }
    if let Some(p) = opw {
        r.push(Some(p));
    }
    assert(r@.map_values(|p: Option<String>| opt_text(p)) =~= spec_password_attempts(u, o));
    r
}

/// An explicit `-pdfium` directory is the only place tried, whatever
/// `$PDFIUM_PATH` and the executable's directory are: it must bind, with no
/// silent fallback to another library.
pub proof fn lemma_explicit_directory_alone(env_dir: bool, exe_dir: bool)
    ensures
        spec_library_sources(true, env_dir, exe_dir) == seq![LibrarySource::Explicit],
{
}

/// Without `-pdfium`, the places are `$PDFIUM_PATH` (when set), then the
/// executable's directory (when known), then the system path, each once,
/// and never an explicit directory.
pub proof fn lemma_search_without_explicit_directory(env_dir: bool, exe_dir: bool)
    ensures
        ({
            let s = spec_library_sources(false, env_dir, exe_dir);
            &&& s.len() == 1 + (if env_dir { 1int } else { 0 }) + (if exe_dir { 1int } else { 0 })
            &&& s.last() == LibrarySource::System
            &&& env_dir ==> s[0] == LibrarySource::EnvDir
            &&& exe_dir ==> s[s.len() - 2] == LibrarySource::ExeDir
            &&& !s.contains(LibrarySource::Explicit)
            &&& s.contains(LibrarySource::EnvDir) == env_dir
            &&& s.contains(LibrarySource::ExeDir) == exe_dir
        }),
{
    let s = spec_library_sources(false, env_dir, exe_dir);
    if s.contains(LibrarySource::Explicit) {
        let i = choose|i: int| 0 <= i < s.len() && s[i] == LibrarySource::Explicit;
        assert(false);
    }
    if env_dir {
        assert(s[0] == LibrarySource::EnvDir);
    } else if s.contains(LibrarySource::EnvDir) {
        let i = choose|i: int| 0 <= i < s.len() && s[i] == LibrarySource::EnvDir;
        assert(false);
    }
    if exe_dir {
        assert(s[s.len() - 2] == LibrarySource::ExeDir);
    } else if s.contains(LibrarySource::ExeDir) {
        let i = choose|i: int| 0 <= i < s.len() && s[i] == LibrarySource::ExeDir;
        assert(false);
    }
}

/// The user password is tried first, then the owner password, each given
/// one once; with neither, one try without a password.
pub proof fn lemma_password_order(u: Seq<char>, o: Seq<char>)
    ensures
        spec_password_attempts(None, None) == seq![None::<Seq<char>>],
        spec_password_attempts(Some(u), Some(o)) == seq![Some(u), Some(o)],
        spec_password_attempts(Some(u), None) == seq![Some(u)],
        spec_password_attempts(None, Some(o)) == seq![Some(o)],
{
    assert(spec_password_attempts(Some(u), Some(o)) =~= seq![Some(u), Some(o)]);
    assert(spec_password_attempts(Some(u), None) =~= seq![Some(u)]);
    assert(spec_password_attempts(None, Some(o)) =~= seq![Some(o)]);
}

} // verus!
