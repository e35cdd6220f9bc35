//! Platform-abstraction and lifecycle-integrity layer for embedding an
//! out-of-process browser engine inside a host toolkit window.
//!
//! The library holds the decision and computation core of the bridge: path
//! resolution for the engine installation, the initialization settings record
//! with its binary-layout size discipline, the signal-disposition guard
//! protocol, the per-platform initialization and window-management plans, and
//! the browser-handle lifecycle rules. The process-global work those plans
//! drive (engine calls, window-system calls, signal swaps) is carried out by
//! an unverified shell around the library.

use vstd::prelude::*;

pub mod browser;
pub mod lifecycle;
pub mod paths;
pub mod settings;
pub mod signals;

verus! {

/// The three windowing platforms the bridge can embed into.
#[derive(Clone, Copy, Debug, PartialEq, Eq, Structural)]
pub enum Platform {
    /// X11 windowing: integer window handles, explicit geometry updates.
    X11,
    /// Cocoa windowing: application-bundle layout, toolkit-tracked geometry.
    Cocoa,
    /// Win32 windowing: window handles, explicit geometry updates.
    Win32,
}

/// Screens one fixed-layout record at the engine boundary: accepts exactly
/// when the record's size field equals the size the vendored engine
/// declarations declare for that record. A mismatch is the fatal ABI-skew
/// condition and must stop the call, never proceed with a corrupted layout.
pub fn check_record_abi(record_size: usize, declared_size: usize) -> (r: Result<(), BridgeError>)
    ensures
        r is Ok <==> record_size == declared_size,
        r is Err ==> r == Err::<(), BridgeError>(BridgeError::AbiMismatch),
{
    if record_size == declared_size {
        Ok(())
    } else {
        Err(BridgeError::AbiMismatch)
    }
}

/// Computes everything engine initialization needs from plain inputs:
/// parses nothing, performs no calls — checks the builder's computed record
/// size against the settings-record size the engine declarations were
/// compiled with (the fatal ABI precondition, tested first), resolves the
/// installation layout from the already-parsed base directory, and
/// assembles the settings record, whose size field always carries the
/// computed size, never a hard-coded constant.
pub fn prepare_initialization(
    base: &paths::DirPath,
    version: &Vec<u8>,
    p: Platform,
    opts: &settings::SettingsOptions,
    ptr_bytes: usize,
    declared_settings_size: usize,
) -> (r: Result<settings::EngineSettings, BridgeError>)
    requires
        base.wf(),
        base.sep == paths::sep_for(p),
        paths::sep_free(version@, paths::sep_for(p)),
        ptr_bytes == 4 || ptr_bytes == 8,
    ensures
        r is Ok <==> declared_settings_size == settings::settings_record_size(ptr_bytes as int)
            && base@.len() >= 3,
        declared_settings_size != settings::settings_record_size(ptr_bytes as int) ==> r == Err::<
            settings::EngineSettings,
            BridgeError,
        >(BridgeError::AbiMismatch),
        declared_settings_size == settings::settings_record_size(ptr_bytes as int) && base@.len()
            < 3 ==> r == Err::<settings::EngineSettings, BridgeError>(
            BridgeError::BaseDirTooShallow,
        ),
        r matches Ok(s) ==> ({
            let sep = paths::sep_for(p);
            &&& s.size == settings::settings_record_size(ptr_bytes as int)
            &&& s.sandboxing == opts.sandboxing
            &&& s.single_process == opts.single_process
            &&& !s.multi_threaded_message_loop
            &&& s.external_message_pump
            &&& s.persist_session_cookies == opts.persist_cookies
            &&& s.persist_user_preferences == opts.persist_preferences
            &&& s.log_severity == opts.log_severity
            &&& s.browser_subprocess_path@ == paths::render_path(
                base@.push(paths::subprocess_name(version@, p)),
                sep,
            )
            &&& s.resources_dir_path@ == if p is Cocoa {
                paths::render_path(
                    base@.push(paths::bundle_name()).push(paths::bundle_resources_name()),
                    sep,
                )
            } else {
                paths::render_path(base@, sep)
            }
            &&& s.locales_dir_path@ == if p is Cocoa {
                paths::render_path(
                    base@.push(paths::bundle_name()).push(paths::bundle_resources_name()),
                    sep,
                )
            } else {
                paths::render_path(base@.push(paths::locales_name()), sep)
            }
            &&& s.framework_dir_path@ == if p is Cocoa {
                paths::render_path(base@.push(paths::bundle_name()), sep)
            } else {
                Seq::<u8>::empty()
            }
            &&& s.cache_path@ == paths::render_path(
                base@.take(base@.len() - 2).push(paths::cache_name()),
                sep,
            )
            &&& s.log_file@ == paths::render_path(base@.push(paths::log_name()), sep)
            &&& s.size == declared_settings_size
        }),
{
    let computed = settings::expected_settings_size(ptr_bytes);
    match check_record_abi(computed, declared_settings_size) {
        Ok(()) => {},
        Err(e) => {
            return Err(e);
        },
    }
    let layout = match paths::resolve_layout(base, version, p) {
        Ok(l) => l,
        Err(e) => {
            return Err(e);
        },
    };
    Ok(settings::build_settings(layout, opts, ptr_bytes))
}

/// Errors the bridge reports. Each names one precise failure condition; the
/// contracts of the functions that return them say exactly when each arises.
#[derive(Clone, Copy, Debug, PartialEq, Eq, Structural)]
pub enum BridgeError {
    /// A record's size field does not equal the size the engine ABI expects.
    AbiMismatch,
    /// The base installation directory is not a well-formed rooted path.
    MalformedBaseDir,
    /// The base installation directory has fewer than two parent components.
    BaseDirTooShallow,
    /// Initialization was attempted after it had already completed.
    AlreadyInitialized,
    /// An operation that needs a running engine came before initialization.
    NotInitialized,
    /// An engine operation was attempted after the terminal shutdown call.
    AlreadyShutDown,
    /// The event-dispatch interceptor was applied a second time.
    InterceptorAlreadyApplied,
    /// The event-loop pump was entered again while a tick was running.
    ReentrantPump,
    /// An engine call came from a thread other than the UI thread that owns
    /// the host's event loop.
    WrongThread,
    /// A browser handle's release capability was used a second time.
    HandleAlreadyReleased,
    /// After release the engine reported a reference count other than the
    /// engine-internal minimum: a lifecycle bug that must be surfaced.
    RefCountMismatch,
}

} // verus!
