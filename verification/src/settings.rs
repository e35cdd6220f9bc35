//! Settings Builder: assembles the engine initialization record and computes
//! its binary-layout size from the declared field layout.
//!
//! The engine checks the record's size field against the struct size its own
//! binary was compiled with; a mismatch means ABI skew between bridge and
//! engine and is fatal. The size is therefore computed here from the record's
//! declared field kinds — never hard-coded — and the builder's contract pins
//! the size field to that computation.

use vstd::prelude::*;

use crate::BridgeError;
use crate::paths::InstallationLayout;

verus! {

/// The binary kinds a field of the settings record can have.
#[derive(Clone, Copy, Debug, PartialEq, Eq, Structural)]
pub enum FieldKind {
    /// A scalar flag or integer: four bytes.
    Scalar,
    /// A string descriptor: pointer, length and release hook, three
    /// pointer-sized words.
    Text,
}

/// The engine's log verbosity levels.
#[derive(Clone, Copy, Debug, PartialEq, Eq, Structural)]
pub enum LogSeverity {
    /// Verbose logging.
    Verbose,
    /// Informational logging.
    Info,
    /// Warnings only.
    Warning,
    /// Errors only.
    Error,
    /// No logging.
    Disable,
}

/// The size in bytes of one field of the given kind.
pub open spec fn field_size(k: FieldKind, ptr_bytes: int) -> int {
    match k {
        FieldKind::Scalar => 4,
        FieldKind::Text => 3 * ptr_bytes,
    }
}

/// The natural alignment in bytes of one field of the given kind.
pub open spec fn field_align(k: FieldKind, ptr_bytes: int) -> int {
    match k {
        FieldKind::Scalar => 4,
        FieldKind::Text => ptr_bytes,
    }
}

/// `off` rounded up to the next multiple of `align`.
pub open spec fn round_up(off: int, align: int) -> int
    recommends
        align > 0,
{
    if off % align == 0 {
        off
    } else {
        off + align - off % align
    }
}

/// The end offset after laying the fields out from `off` by C layout rules:
/// each field starts at its alignment.
pub open spec fn layout_end(ks: Seq<FieldKind>, ptr_bytes: int, off: int) -> int
    decreases ks.len(),
{
    if ks.len() == 0 {
        off
    } else {
        layout_end(
            ks.drop_first(),
            ptr_bytes,
            round_up(off, field_align(ks[0], ptr_bytes)) + field_size(ks[0], ptr_bytes),
        )
    }
}

/// The settings record's fields after the size prefix, in the order the
/// engine ABI declares them.
pub open spec fn settings_field_kinds() -> Seq<FieldKind> {
    seq![
        FieldKind::Scalar,  // single_process
        FieldKind::Scalar,  // no_sandbox
        FieldKind::Text,  // browser_subprocess_path
        FieldKind::Text,  // framework_dir_path
        FieldKind::Scalar,  // multi_threaded_message_loop
        FieldKind::Scalar,  // external_message_pump
        FieldKind::Scalar,  // windowless_rendering_enabled
        FieldKind::Scalar,  // command_line_args_disabled
        FieldKind::Text,  // cache_path
        FieldKind::Text,  // user_data_path
        FieldKind::Scalar,  // persist_session_cookies
        FieldKind::Scalar,  // persist_user_preferences
        FieldKind::Text,  // user_agent
        FieldKind::Text,  // product_version
        FieldKind::Text,  // locale
        FieldKind::Text,  // log_file
        FieldKind::Scalar,  // log_severity
        FieldKind::Text,  // javascript_flags
        FieldKind::Text,  // resources_dir_path
        FieldKind::Text,  // locales_dir_path
        FieldKind::Scalar,  // pack_loading_disabled
        FieldKind::Scalar,  // remote_debugging_port
        FieldKind::Scalar,  // uncaught_exception_stack_size
        FieldKind::Scalar,  // ignore_certificate_errors
        FieldKind::Scalar,  // enable_net_security_expiration
        FieldKind::Scalar,  // background_color
        FieldKind::Text,  // accept_language_list
    ]
}

/// The compiled size of the whole record: the pointer-sized size prefix,
/// the declared fields at their aligned offsets, and tail padding up to the
/// record's alignment.
pub open spec fn settings_record_size(ptr_bytes: int) -> int {
    round_up(layout_end(settings_field_kinds(), ptr_bytes, ptr_bytes), ptr_bytes)
}

/// Laying out one more field extends the end offset by that field's
/// alignment padding and size.
proof fn lemma_layout_end_snoc(ks: Seq<FieldKind>, k: FieldKind, ptr_bytes: int, off: int)
    ensures
        layout_end(ks.push(k), ptr_bytes, off) == round_up(
            layout_end(ks, ptr_bytes, off),
            field_align(k, ptr_bytes),
        ) + field_size(k, ptr_bytes),
    decreases ks.len(),
{
    if ks.len() == 0 {
        assert(ks.push(k)[0] == k);
        assert(ks.push(k).drop_first() =~= Seq::<FieldKind>::empty());
        let landing = round_up(off, field_align(k, ptr_bytes)) + field_size(k, ptr_bytes);
        assert(layout_end(ks.push(k), ptr_bytes, off) == layout_end(
            Seq::<FieldKind>::empty(),
            ptr_bytes,
            landing,
        ));
        assert(layout_end(Seq::<FieldKind>::empty(), ptr_bytes, landing) == landing);
        assert(layout_end(ks, ptr_bytes, off) == off);
    } else {
        assert(ks.push(k)[0] == ks[0]);
        assert(ks.push(k).drop_first() =~= ks.drop_first().push(k));
        let landing = round_up(off, field_align(ks[0], ptr_bytes)) + field_size(ks[0], ptr_bytes);
        lemma_layout_end_snoc(ks.drop_first(), k, ptr_bytes, landing);
        assert(layout_end(ks.push(k), ptr_bytes, off) == layout_end(
            ks.drop_first().push(k),
            ptr_bytes,
            landing,
        ));
        assert(layout_end(ks, ptr_bytes, off) == layout_end(ks.drop_first(), ptr_bytes, landing));
    }
}

/// Builds the declared field list of the settings record.
pub fn settings_fields() -> (r: Vec<FieldKind>)
    ensures
        r@ == settings_field_kinds(),
{
    let mut r: Vec<FieldKind> = Vec::new();
    r.push(FieldKind::Scalar);
    r.push(FieldKind::Scalar);
    r.push(FieldKind::Text);
    r.push(FieldKind::Text);
    r.push(FieldKind::Scalar);
    r.push(FieldKind::Scalar);
    r.push(FieldKind::Scalar);
    r.push(FieldKind::Scalar);
    r.push(FieldKind::Text);
    r.push(FieldKind::Text);
    r.push(FieldKind::Scalar);
    r.push(FieldKind::Scalar);
    r.push(FieldKind::Text);
    r.push(FieldKind::Text);
    r.push(FieldKind::Text);
    r.push(FieldKind::Text);
    r.push(FieldKind::Scalar);
    r.push(FieldKind::Text);
    r.push(FieldKind::Text);
    r.push(FieldKind::Text);
    r.push(FieldKind::Scalar);
    r.push(FieldKind::Scalar);
    r.push(FieldKind::Scalar);
    r.push(FieldKind::Scalar);
    r.push(FieldKind::Scalar);
    r.push(FieldKind::Scalar);
    r.push(FieldKind::Text);
    proof {
        assert(r@ =~= settings_field_kinds());
    }
    r
}

/// Computes the compiled size of the settings record from its declared
/// field layout, by C layout rules.
pub fn expected_settings_size(ptr_bytes: usize) -> (r: usize)
    requires
        ptr_bytes == 4 || ptr_bytes == 8,
    ensures
        r == settings_record_size(ptr_bytes as int),
{
    let fields = settings_fields();
    let mut offset: usize = ptr_bytes;
    let mut i: usize = 0;
    while i < fields.len()
        invariant
            ptr_bytes == 4 || ptr_bytes == 8,
            fields@ == settings_field_kinds(),
            i <= fields@.len(),
            offset == layout_end(fields@.take(i as int), ptr_bytes as int, ptr_bytes as int),
            offset <= ptr_bytes + 32 * i,
        decreases fields@.len() - i,
    {
        let size: usize;
        let align: usize;
        match fields[i] {
            FieldKind::Scalar => {
                size = 4;
                align = 4;
            },
            FieldKind::Text => {
                size = 3 * ptr_bytes;
                align = ptr_bytes;
            },
        }
        proof {
            assert(fields@.take(i + 1) =~= fields@.take(i as int).push(fields@[i as int]));
            lemma_layout_end_snoc(
                fields@.take(i as int),
                fields@[i as int],
                ptr_bytes as int,
                ptr_bytes as int,
            );
        }
        let rem = offset % align;
        if rem != 0 {
            offset = offset + (align - rem);
        }
        offset = offset + size;
        i = i + 1;
    }
    proof {
        assert(fields@.len() == 27);
        assert(fields@.take(fields@.len() as int) =~= fields@);
    }
    let rem = offset % ptr_bytes;
    if rem != 0 {
        offset = offset + (ptr_bytes - rem);
    }
    offset
}

/// The configuration surface of the bridge: the recognized options and
/// nothing else. Everything not named here is fixed by policy.
pub struct SettingsOptions {
    /// Whether the engine sandbox is enabled.
    pub sandboxing: bool,
    /// Whether the engine runs in single-process mode.
    pub single_process: bool,
    /// Log verbosity.
    pub log_severity: LogSeverity,
    /// Whether session cookies persist across runs.
    pub persist_cookies: bool,
    /// Whether user preferences persist across runs.
    pub persist_preferences: bool,
}

impl Default for SettingsOptions {
    /// The operational defaults: sandboxing off, single-process off,
    /// informational logging, cookie and preference persistence on.
    fn default() -> (r: Self)
        ensures
            !r.sandboxing,
            !r.single_process,
            r.log_severity is Info,
            r.persist_cookies,
            r.persist_preferences,
    {
        SettingsOptions {
            sandboxing: false,
            single_process: false,
            log_severity: LogSeverity::Info,
            persist_cookies: true,
            persist_preferences: true,
        }
    }
}

/// The engine initialization record: the size prefix, the policy flags, and
/// the paths of the installation layout. Constructed once per
/// initialization and consumed by the engine synchronously.
#[derive(Debug)]
pub struct EngineSettings {
    /// Size of the record, computed from the declared field layout.
    pub size: usize,
    /// Whether the engine sandbox is enabled.
    pub sandboxing: bool,
    /// Whether the engine runs in single-process mode.
    pub single_process: bool,
    /// Whether the engine drives its message loop on its own thread; the
    /// bridge keeps this off and pumps externally.
    pub multi_threaded_message_loop: bool,
    /// Whether the host drives the engine's message loop; always on here.
    pub external_message_pump: bool,
    /// Whether the engine renders windowless; off for embedded views.
    pub windowless_rendering: bool,
    /// Whether session cookies persist across runs.
    pub persist_session_cookies: bool,
    /// Whether user preferences persist across runs.
    pub persist_user_preferences: bool,
    /// Log verbosity.
    pub log_severity: LogSeverity,
    /// Path of the subprocess executable.
    pub browser_subprocess_path: Vec<u8>,
    /// Path of the framework bundle, or empty.
    pub framework_dir_path: Vec<u8>,
    /// Cache directory path.
    pub cache_path: Vec<u8>,
    /// Resources directory path.
    pub resources_dir_path: Vec<u8>,
    /// Locales directory path.
    pub locales_dir_path: Vec<u8>,
    /// Log file path.
    pub log_file: Vec<u8>,
}

/// Assembles the settings record from a resolved installation layout and the
/// recognized options. The size field always carries the computed record
/// size; external pumping stays on and the engine's own loop thread stays
/// off, since the host drives the loop.
pub fn build_settings(layout: InstallationLayout, opts: &SettingsOptions, ptr_bytes: usize) -> (s:
    EngineSettings)
    requires
        ptr_bytes == 4 || ptr_bytes == 8,
    ensures
        s.size == settings_record_size(ptr_bytes as int),
        s.sandboxing == opts.sandboxing,
        s.single_process == opts.single_process,
        !s.multi_threaded_message_loop,
        s.external_message_pump,
        !s.windowless_rendering,
        s.persist_session_cookies == opts.persist_cookies,
        s.persist_user_preferences == opts.persist_preferences,
        s.log_severity == opts.log_severity,
        s.browser_subprocess_path@ == layout.subprocess_executable@,
        s.framework_dir_path@ == layout.framework_dir@,
        s.cache_path@ == layout.cache_dir@,
        s.resources_dir_path@ == layout.resources_dir@,
        s.locales_dir_path@ == layout.locales_dir@,
        s.log_file@ == layout.log_file@,
{
    EngineSettings {
        size: expected_settings_size(ptr_bytes),
        sandboxing: opts.sandboxing,
        single_process: opts.single_process,
        multi_threaded_message_loop: false,
        external_message_pump: true,
        windowless_rendering: false,
        persist_session_cookies: opts.persist_cookies,
        persist_user_preferences: opts.persist_preferences,
        log_severity: opts.log_severity,
        browser_subprocess_path: layout.subprocess_executable,
        framework_dir_path: layout.framework_dir,
        cache_path: layout.cache_dir,
        resources_dir_path: layout.resources_dir,
        locales_dir_path: layout.locales_dir,
        log_file: layout.log_file,
    }
}

/// Test on the settings record before it reaches the engine: accepts
/// exactly the records whose size field equals the size the vendored engine
/// declarations were compiled with, which the collaborator supplies. A
/// mismatch — layout skew between this builder and the engine binary — is
/// the fatal ABI condition, and because the declared size comes from the
/// engine's own headers the test can catch skew the builder itself cannot
/// see.
pub fn check_settings_abi(s: &EngineSettings, declared_size: usize) -> (r: Result<
    (),
    BridgeError,
>)
    ensures
        r is Ok <==> s.size == declared_size,
        r is Err ==> r == Err::<(), BridgeError>(BridgeError::AbiMismatch),
{
    crate::check_record_abi(s.size, declared_size)
}

} // verus!
