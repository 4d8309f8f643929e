//! The debug configuration of the `xmake` adapter.
use vstd::prelude::*;

use crate::env_map::EnvMap;

verus! {

/// What a debug session is started with.
#[derive(Debug)]
pub struct XMakeDebugConfig {
    pub program: Option<String>,
    pub args: Option<Vec<String>>,
    pub cwd: Option<String>,
    pub env: EnvMap,
    /// `launch` or `attach`.
    pub request: String,
    pub stop_at_entry: Option<bool>,
    /// The process to attach to.
    pub pid: Option<u32>,
    /// `lldb-dap` or `gdb-dap`.
    pub debugger: Option<String>,
}

#[verifier::ext_equal]
pub struct XMakeDebugConfigView {
    pub program: Option<Seq<char>>,
    pub args: Option<Seq<Seq<char>>>,
    pub cwd: Option<Seq<char>>,
    pub env: Map<Seq<char>, Seq<char>>,
    pub request: Seq<char>,
    pub stop_at_entry: Option<bool>,
    pub pid: Option<u32>,
    pub debugger: Option<Seq<char>>,
}

impl DeepView for XMakeDebugConfig {
    type V = XMakeDebugConfigView;

    open spec fn deep_view(&self) -> XMakeDebugConfigView {
        XMakeDebugConfigView {
            program: self.program.deep_view(),
            args: self.args.deep_view(),
            cwd: self.cwd.deep_view(),
            env: self.env.deep_view(),
            request: self.request@,
            stop_at_entry: self.stop_at_entry,
            pid: self.pid,
            debugger: self.debugger.deep_view(),
        }
    }
}

impl Clone for XMakeDebugConfig {
    fn clone(&self) -> (config: Self)
        ensures
            config.deep_view() == self.deep_view(),
    {
        let args = match &self.args {
            Some(args) => {
                let copy = args.clone();
                assert(copy.deep_view() =~= args.deep_view());
                Some(copy)
            },
            None => None,
        };
        XMakeDebugConfig {
            program: self.program.clone(),
            args,
            cwd: self.cwd.clone(),
            env: self.env.clone(),
            request: self.request.clone(),
            stop_at_entry: self.stop_at_entry,
            pid: self.pid,
            debugger: self.debugger.clone(),
        }
    }
}

/// A configuration that launches, and says nothing else.
pub open spec fn default_config() -> XMakeDebugConfigView {
    XMakeDebugConfigView {
        program: None,
        args: None,
        cwd: None,
        env: Map::empty(),
        request: "launch"@,
        stop_at_entry: None,
        pid: None,
        debugger: None,
    }
}

impl Default for XMakeDebugConfig {
    fn default() -> (config: Self)
        ensures
            config.deep_view() == default_config(),
    {
        XMakeDebugConfig {
            program: None,
            args: None,
            cwd: None,
            env: EnvMap::new(),
            request: "launch".to_string(),
            stop_at_entry: None,
            pid: None,
            debugger: None,
        }
    }
}

} // verus!
