//! Locating, loading and versioning a backend writer module.
//!
//! A locator string names the backend in one of six initialization
//! modes: a library filename, a library directory, a config filename, a
//! config directory, a literal config string, or an environment variable
//! naming one of those.  A mode that does not match the locator's actual
//! form is rejected with `InvalidInitMode`; it never degrades silently
//! to another mode.  The dynamic loading itself is performed by the
//! embedder, which reports what happened through [`LoadReply`] and
//! [`NegotiateReply`].

use vstd::prelude::*;

use crate::interface::{InterfaceCore, InterfaceHandle};
use crate::status::ResultCode;

verus! {

/// The operating-system family the process runs on, as far as the
/// default backend module name is concerned.
#[derive(Clone, Copy, PartialEq, Eq, Structural, Debug)]
pub enum Platform {
    Windows,
    Apple,
    OtherUnix,
}

/// The path separator the platform's library paths use.
pub open spec fn separator_spec(platform: Platform) -> char {
    match platform {
        Platform::Windows => '\\',
        Platform::Apple => '/',
        Platform::OtherUnix => '/',
    }
}

/// Default backend module filename for each platform family.
pub fn default_backend_filename(platform: Platform) -> (r: &'static str)
    ensures
        platform == Platform::Windows ==> r@ == "NvtxwBackend.dll"@,
        platform == Platform::Apple ==> r@ == "libNvtxwBackend.dylib"@,
        platform == Platform::OtherUnix ==> r@ == "libNvtxwBackend.so"@,
{
    match platform {
        Platform::Windows => "NvtxwBackend.dll",
        Platform::Apple => "libNvtxwBackend.dylib",
        Platform::OtherUnix => "libNvtxwBackend.so",
    }
}

/// Whether a directory path already ends in a separator the platform
/// accepts: `/` everywhere, and `\` on Windows as well.
pub open spec fn ends_with_sep(dir: Seq<char>, platform: Platform) -> bool {
    dir.len() > 0 && (dir[dir.len() - 1] == '/' || (platform == Platform::Windows && dir[dir.len()
        - 1] == '\\'))
}

/// How a directory locator expands: the default module filename is
/// appended, with the platform's separator unless the directory is
/// empty or already ends in an accepted separator.
pub open spec fn join_dir_spec(dir: Seq<char>, file: Seq<char>, platform: Platform) -> Seq<char> {
    if dir.len() == 0 {
        file
    } else if ends_with_sep(dir, platform) {
        dir + file
    } else {
        dir + seq![separator_spec(platform)] + file
    }
}

/// Append the default backend filename to a directory path.
pub fn join_dir(dir: &str, file: &str, platform: Platform) -> (r: String)
    ensures
        r@ == join_dir_spec(dir@, file@, platform),
{
    let n = dir.unicode_len();
    if n == 0 {
        return file.to_owned();
    }
    let windows = matches!(platform, Platform::Windows);
    let last = dir.get_char(n - 1);
    let mut r = dir.to_owned();
    if !(last == '/' || (windows && last == '\\')) {
        let sep = if windows {
            "\\"
        } else {
            "/"
        };
        proof {
            reveal_strlit("\\");
            reveal_strlit("/");
            assert(sep@ =~= seq![separator_spec(platform)]);
        }
        r.append(sep);
    }
    r.append(file);
    proof {
        assert(r@ =~= join_dir_spec(dir@, file@, platform));
    }
    r
}

/// The module path the simple entry point hands to the platform loader:
/// the given backend path, or the platform default when none is given,
/// with a directory expanded to the default filename inside it.
pub open spec fn resolve_backend_module_spec(
    backend: Option<Seq<char>>,
    backend_is_dir: bool,
    platform: Platform,
) -> Seq<char> {
    let fallback = match platform {
        Platform::Windows => "NvtxwBackend.dll"@,
        Platform::Apple => "libNvtxwBackend.dylib"@,
        Platform::OtherUnix => "libNvtxwBackend.so"@,
    };
    match backend {
        Some(path) => if backend_is_dir {
            join_dir_spec(path, fallback, platform)
        } else {
            path
        },
        None => fallback,
    }
}

/// Resolve the backend module path for the simple entry point.
///
/// `backend_is_dir` reports whether the given path names a directory on
/// the filesystem; the caller determines it, since this layer does no
/// filesystem probing of its own.
pub fn resolve_backend_module(
    backend: Option<&str>,
    backend_is_dir: bool,
    platform: Platform,
) -> (r: String)
    ensures
        r@ == resolve_backend_module_spec(
            match backend {
                Some(b) => Some(b@),
                None => None,
            },
            backend_is_dir,
            platform,
        ),
{
    let fallback = default_backend_filename(platform);
    match backend {
        Some(path) => if backend_is_dir {
            join_dir(path, fallback, platform)
        } else {
            path.to_owned()
        },
        None => fallback.to_owned(),
    }
}

/// The six locator-driven initialization modes, and the default search
/// mode that takes no locator.
#[derive(Clone, Copy, PartialEq, Eq, Structural, Debug)]
pub enum InitMode {
    SearchDefault,
    LibraryFilename,
    LibraryDirectory,
    ConfigFilename,
    ConfigDirectory,
    ConfigString,
    ConfigEnvVar,
}

impl InitMode {
    /// Integer selector of this mode at the binary interface boundary.
    pub open spec fn wire_spec(self) -> int {
        match self {
            InitMode::SearchDefault => 0,
            InitMode::LibraryFilename => 1,
            InitMode::LibraryDirectory => 2,
            InitMode::ConfigFilename => 3,
            InitMode::ConfigDirectory => 4,
            InitMode::ConfigString => 5,
            InitMode::ConfigEnvVar => 6,
        }
    }

    /// Encode this mode for the boundary.
    pub fn wire(self) -> (r: i32)
        ensures
            r as int == self.wire_spec(),
    {
        match self {
            InitMode::SearchDefault => 0,
            InitMode::LibraryFilename => 1,
            InitMode::LibraryDirectory => 2,
            InitMode::ConfigFilename => 3,
            InitMode::ConfigDirectory => 4,
            InitMode::ConfigString => 5,
            InitMode::ConfigEnvVar => 6,
        }
    }
}

/// What a locator actually is, as determined by the embedder: a plain
/// file, a directory, a config file, literal config text, or the name of
/// an environment variable that is set.
#[derive(Clone, Copy, PartialEq, Eq, Structural, Debug)]
pub enum LocatorForm {
    LibraryFile,
    Directory,
    ConfigFile,
    ConfigText,
    EnvVarName,
}

/// Whether an initialization mode accepts a locator of the given form.
/// The default search mode reads no locator and accepts any.
pub open spec fn mode_matches(mode: InitMode, form: LocatorForm) -> bool {
    match mode {
        InitMode::SearchDefault => true,
        InitMode::LibraryFilename => form == LocatorForm::LibraryFile,
        InitMode::LibraryDirectory => form == LocatorForm::Directory,
        InitMode::ConfigFilename => form == LocatorForm::ConfigFile,
        InitMode::ConfigDirectory => form == LocatorForm::Directory,
        InitMode::ConfigString => form == LocatorForm::ConfigText,
        InitMode::ConfigEnvVar => form == LocatorForm::EnvVarName,
    }
}

/// Reject a mode that does not match the locator's actual form.
///
/// A mismatch always fails with `InvalidInitMode`; no mode is ever
/// reinterpreted as another.
pub fn validate_init_mode(mode: InitMode, form: LocatorForm) -> (r: Result<(), ResultCode>)
    ensures
        r is Ok <==> mode_matches(mode, form),
        r is Err ==> r->Err_0 == ResultCode::InvalidInitMode,
{
    let accepted = match mode {
        InitMode::SearchDefault => true,
        InitMode::LibraryFilename => matches!(form, LocatorForm::LibraryFile),
        InitMode::LibraryDirectory => matches!(form, LocatorForm::Directory),
        InitMode::ConfigFilename => matches!(form, LocatorForm::ConfigFile),
        InitMode::ConfigDirectory => matches!(form, LocatorForm::Directory),
        InitMode::ConfigString => matches!(form, LocatorForm::ConfigText),
        InitMode::ConfigEnvVar => matches!(form, LocatorForm::EnvVarName),
    };
    if accepted {
        Ok(())
    } else {
        Err(ResultCode::InvalidInitMode)
    }
}

/// Resolve a load request to the module path handed to the platform
/// dynamic-loading primitive.
///
/// Directory expansion happens first, then the resulting string goes to
/// the loader.  The config-driven modes are resolved by the backend
/// loader itself, not by this layer, and are reported as unsupported
/// here.
pub fn resolve_load_request(
    mode: InitMode,
    locator: &str,
    form: LocatorForm,
    platform: Platform,
) -> (r: Result<String, ResultCode>)
    ensures
        !mode_matches(mode, form) ==> r == Err::<String, ResultCode>(ResultCode::InvalidInitMode),
        mode_matches(mode, form) && mode == InitMode::LibraryFilename ==> r is Ok && r->Ok_0@
            == locator@,
        mode_matches(mode, form) && mode == InitMode::LibraryDirectory ==> r is Ok && r->Ok_0@
            == join_dir_spec(
            locator@,
            resolve_backend_module_spec(None, false, platform),
            platform,
        ),
        mode_matches(mode, form) && mode == InitMode::SearchDefault ==> r is Ok && r->Ok_0@
            == resolve_backend_module_spec(None, false, platform),
        mode_matches(mode, form) && (mode == InitMode::ConfigFilename || mode
            == InitMode::ConfigDirectory || mode == InitMode::ConfigString || mode
            == InitMode::ConfigEnvVar) ==> r == Err::<String, ResultCode>(
            ResultCode::UnsupportedLoaderMode,
        ),
{
    match validate_init_mode(mode, form) {
        Err(code) => Err(code),
        Ok(()) => match mode {
            InitMode::SearchDefault => Ok(default_backend_filename(platform).to_owned()),
            InitMode::LibraryFilename => Ok(locator.to_owned()),
            InitMode::LibraryDirectory => Ok(
                join_dir(locator, default_backend_filename(platform), platform),
            ),
            InitMode::ConfigFilename => Err(ResultCode::UnsupportedLoaderMode),
            InitMode::ConfigDirectory => Err(ResultCode::UnsupportedLoaderMode),
            InitMode::ConfigString => Err(ResultCode::UnsupportedLoaderMode),
            InitMode::ConfigEnvVar => Err(ResultCode::UnsupportedLoaderMode),
        },
    }
}

/// What the embedder observed while loading a backend module and
/// negotiating the core interface on it.
#[derive(Clone, Copy, PartialEq, Eq, Structural, Debug)]
pub struct LoadReply {
    /// Code returned by the platform loader entry call.
    pub init_code: ResultCode,
    /// Whether the loader filled in a non-null interface-getter symbol.
    pub getter_present: bool,
    /// Token under which the embedder tracks the mapped module.
    pub module: u64,
    /// Code returned when the core interface id was requested.
    pub negotiate_code: ResultCode,
    /// The table the backend returned; absent models a null table.
    pub table: Option<InterfaceCore>,
}

/// The handle a load attempt yields, laid out as a ladder over the
/// embedder's observations: a loader failure passes through verbatim, a
/// missing getter or a null table is normalized to `Failed`, and an
/// unsupported interface id passes through as such.
pub open spec fn initialize_result(reply: LoadReply) -> Result<InterfaceHandle, ResultCode> {
    if reply.init_code != ResultCode::Success {
        Err(reply.init_code)
    } else if !reply.getter_present {
        Err(ResultCode::Failed)
    } else if reply.negotiate_code != ResultCode::Success {
        Err(reply.negotiate_code)
    } else if reply.table is None {
        Err(ResultCode::Failed)
    } else {
        Ok(InterfaceHandle { core: reply.table->0, module: reply.module })
    }
}

/// Build the owned interface handle from one load attempt.
///
/// A failed attempt yields no usable handle: the result is `Ok` exactly
/// when the loader, the getter symbol and the negotiation all succeeded
/// and the backend returned a table.
pub fn initialize_simple(reply: &LoadReply) -> (r: Result<InterfaceHandle, ResultCode>)
    ensures
        r == initialize_result(*reply),
        reply.init_code == ResultCode::Success && reply.getter_present && reply.negotiate_code
            == ResultCode::InterfaceIdNotSupported ==> r == Err::<InterfaceHandle, ResultCode>(
            ResultCode::InterfaceIdNotSupported,
        ),
{
    if !matches!(reply.init_code, ResultCode::Success) {
        Err(reply.init_code)
    } else if !reply.getter_present {
        Err(ResultCode::Failed)
    } else if !matches!(reply.negotiate_code, ResultCode::Success) {
        Err(reply.negotiate_code)
    } else {
        match reply.table {
            None => Err(ResultCode::Failed),
            Some(core) => Ok(InterfaceHandle { core, module: reply.module }),
        }
    }
}

/// What the backend answered when one interface id was requested.
#[derive(Clone, Copy, PartialEq, Eq, Structural, Debug)]
pub struct NegotiateReply {
    /// Code the getter returned for the requested id.
    pub code: ResultCode,
    /// The table it wrote back; absent models a null table pointer.
    pub table: Option<InterfaceCore>,
}

/// The table negotiation yields for one requested interface id: an
/// unsupported id fails with the backend's code and hands out no table,
/// and a success paired with a null table is an internal inconsistency
/// normalized to `Failed`.
pub open spec fn negotiate_result(reply: NegotiateReply) -> Result<InterfaceCore, ResultCode> {
    if reply.code != ResultCode::Success {
        Err(reply.code)
    } else if reply.table is None {
        Err(ResultCode::Failed)
    } else {
        Ok(reply.table->0)
    }
}

/// Interpret the backend's answer to an interface request.
///
/// When the backend does not support the requested id the caller
/// receives `InterfaceIdNotSupported` and no function table.
pub fn get_interface(reply: &NegotiateReply) -> (r: Result<InterfaceCore, ResultCode>)
    ensures
        r == negotiate_result(*reply),
        reply.code == ResultCode::InterfaceIdNotSupported ==> r == Err::<
            InterfaceCore,
            ResultCode,
        >(ResultCode::InterfaceIdNotSupported),
        r is Ok ==> reply.table == Some(r->Ok_0),
{
    if !matches!(reply.code, ResultCode::Success) {
        Err(reply.code)
    } else {
        match reply.table {
            None => Err(ResultCode::Failed),
            Some(core) => Ok(core),
        }
    }
}

/// Give the module handle up.
///
/// Consuming the handle here ends its use on this side; the embedder
/// makes the single matching release call for `interface.module`, after
/// every session and stream derived from the handle has been closed.
pub fn unload(interface: InterfaceHandle) -> (m: u64)
    ensures
        m == interface.module,
{
    interface.module
}

} // verus!
