//! The configuration snapshot taken from the process environment at start.
use vstd::prelude::*;

verus! {

/// Operating parameters of the runtime, each one absent when its
/// environment variable is not set. Never changed once built.
#[derive(Debug, Clone)]
pub struct FdkEnv {
    /// `FN_LISTENER`: the listener url, `unix:/<path>`.
    pub fn_listener: Option<String>,
    /// `FN_FORMAT`: the wire format of function payloads.
    pub fn_format: Option<String>,
    /// `FN_LOGFRAME_NAME`: the correlation-log field name.
    pub fn_logframe_name: Option<String>,
    /// `FN_LOGFRAME_HDR`: the header the correlation-log value comes from.
    pub fn_logframe_hdr: Option<String>,
    /// `FDK_LOG_THRESHOLD`: the minimum severity that is emitted.
    pub fdk_log_threshold: Option<String>,
    /// `FN_APP_ID`: the application identifier.
    pub fn_app_id: Option<String>,
    /// `FN_FN_ID`: the function identifier.
    pub fn_fn_id: Option<String>,
    /// `FN_MEMORY`: the configured memory ceiling.
    pub fn_memory: Option<String>,
}

} // verus!
