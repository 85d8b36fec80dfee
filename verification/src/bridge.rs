//! The payload types that cross the bridge to the web-based front end, and
//! the decisions that assemble them from plain engine state.

use vstd::prelude::*;

use crate::context::CompileStatus;
use crate::operator::OutputKind;

verus! {

/// Project state as reported to the front end.
#[derive(Debug, Clone, PartialEq, Eq)]
pub struct ProjectInfo {
    pub loaded: bool,
    pub project_path: Option<String>,
    pub chain_path: Option<String>,
}

/// Compilation status as reported to the front end.
#[derive(Debug, Clone, PartialEq, Eq)]
pub struct CompileStatusInfo {
    pub success: bool,
    pub message: Option<String>,
    pub error_line: Option<u32>,
    pub error_column: Option<u32>,
}

/// One operator as reported to the front end.
#[derive(Debug, Clone, PartialEq, Eq)]
pub struct OperatorInfo {
    pub name: String,
    pub op_type: String,
    pub output_kind: String,
    pub bypassed: bool,
    pub input_count: usize,
    pub inputs: Vec<String>,
}

/// Payload of the initialization event.
#[derive(Debug, Clone, PartialEq, Eq)]
pub struct VividInitializedPayload {
    pub success: bool,
    pub project_loaded: bool,
    pub project_path: Option<String>,
}

/// Payload of the compile status event.
#[derive(Debug, Clone, PartialEq, Eq)]
pub struct CompileStatusPayload {
    pub success: bool,
    pub message: Option<String>,
    pub error_line: Option<u32>,
    pub error_column: Option<u32>,
}

/// Payload of the operator selection event.
#[derive(Debug, Clone, PartialEq, Eq)]
pub struct OperatorSelectedPayload {
    pub name: Option<String>,
}

/// Options for bundling a project into a standalone application.
#[derive(Debug, Clone, PartialEq, Eq)]
pub struct BundleOptions {
    pub project_path: String,
    pub output_dir: Option<String>,
    pub app_name: Option<String>,
    pub platform: Option<String>,
}

/// Outcome of a bundling run.
#[derive(Debug, Clone, PartialEq, Eq)]
pub struct BundleResult {
    pub success: bool,
    pub output: String,
    pub bundle_path: Option<String>,
}

/// Assemble the project report: the chain source always sits at
/// `chain.cpp` directly under the project directory.
pub fn project_info(loaded: bool, project_path: Option<String>) -> (info: ProjectInfo)
    ensures
        info.loaded == loaded,
        info.project_path == project_path,
        match project_path {
            Some(p) => match info.chain_path {
                Some(c) => c@ == p@ + "/chain.cpp"@,
                None => false,
            },
            None => info.chain_path is None,
        },
{
    let chain_path = match &project_path {
        Some(p) => {
            let mut c = p.clone();
            c.append("/chain.cpp");
            Some(c)
        },
        None => None,
    };
    ProjectInfo { loaded, project_path, chain_path }
}

/// Assemble the compile status report; with no engine context there is
/// nothing to complain about, so the report is a success with no message.
pub fn compile_status_info(status: Option<CompileStatus>) -> (info: CompileStatusInfo)
    ensures
        match status {
            Some(s) => info.success == s.success && info.message == s.message
                && info.error_line == s.error_line && info.error_column == s.error_column,
            None => info.success && info.message is None && info.error_line is None
                && info.error_column is None,
        },
{
    match status {
        Some(s) => CompileStatusInfo {
            success: s.success,
            message: s.message,
            error_line: s.error_line,
            error_column: s.error_column,
        },
        None => CompileStatusInfo {
            success: true,
            message: None,
            error_line: None,
            error_column: None,
        },
    }
}

/// Assemble the compile status event payload.
pub fn compile_status_payload(status: CompileStatus) -> (payload: CompileStatusPayload)
    ensures
        payload.success == status.success,
        payload.message == status.message,
        payload.error_line == status.error_line,
        payload.error_column == status.error_column,
{
    CompileStatusPayload {
        success: status.success,
        message: status.message,
        error_line: status.error_line,
        error_column: status.error_column,
    }
}

/// Assemble the payload of a successful initialization or project load.
pub fn initialized_payload(project_loaded: bool, project_path: Option<String>) -> (payload:
    VividInitializedPayload)
    ensures
        payload.success,
        payload.project_loaded == project_loaded,
        payload.project_path == project_path,
{
    VividInitializedPayload { success: true, project_loaded, project_path }
}

/// Assemble one operator's report from its plain attributes.
pub fn operator_info(
    name: String,
    op_type: String,
    kind: OutputKind,
    bypassed: bool,
    inputs: Vec<String>,
) -> (info: OperatorInfo)
    ensures
        info.name == name,
        info.op_type == op_type,
        info.output_kind@ == kind.spec_label(),
        info.bypassed == bypassed,
        info.input_count == inputs@.len(),
        info.inputs == inputs,
{
    let input_count = inputs.len();
    OperatorInfo {
        name,
        op_type,
        output_kind: String::from_str(kind.label()),
        bypassed,
        input_count,
        inputs,
    }
}

/// The argument list for the bundling command: the bundle subcommand, the
/// project, then one flag per option that is set.
pub fn bundle_args(options: &BundleOptions) -> (args: Vec<String>)
    ensures
        args@.len() >= 2,
        args@[0]@ == "bundle"@,
        args@[1]@ == options.project_path@,
        args@.map_values(|a: String| a@) == seq!["bundle"@, options.project_path@] + (
        match options.output_dir {
            Some(d) => seq!["-o"@, d@],
            None => Seq::<Seq<char>>::empty(),
        }) + (match options.app_name {
            Some(n) => seq!["-n"@, n@],
            None => Seq::<Seq<char>>::empty(),
        }) + (match options.platform {
            Some(p) => seq!["-p"@, p@],
            None => Seq::<Seq<char>>::empty(),
        }),
{
    let mut args: Vec<String> = Vec::new();
    args.push(String::from_str("bundle"));
    args.push(options.project_path.clone());
    match &options.output_dir {
        Some(d) => {
            args.push(String::from_str("-o"));
            args.push(d.clone());
        },
        None => {},
    }
    match &options.app_name {
        Some(n) => {
            args.push(String::from_str("-n"));
            args.push(n.clone());
        },
        None => {},
    }
    match &options.platform {
        Some(p) => {
            args.push(String::from_str("-p"));
            args.push(p.clone());
        },
        None => {},
    }
    proof {
        assert(args@.map_values(|a: String| a@) =~= seq!["bundle"@, options.project_path@] + (
        match options.output_dir {
            Some(d) => seq!["-o"@, d@],
            None => Seq::<Seq<char>>::empty(),
        }) + (match options.app_name {
            Some(n) => seq!["-n"@, n@],
            None => Seq::<Seq<char>>::empty(),
        }) + (match options.platform {
            Some(p) => seq!["-p"@, p@],
            None => Seq::<Seq<char>>::empty(),
        }));
    }
    args
}

/// The bundling tool's combined output: its standard output, and its
/// standard error below it when there was any.
pub fn bundle_output(stdout: String, stderr: &str) -> (combined: String)
    ensures
        stderr@.len() == 0 ==> combined@ == stdout@,
        stderr@.len() > 0 ==> combined@ == stdout@ + "\n"@ + stderr@,
{
    if stderr.is_empty() {
        stdout
    } else {
        let mut combined = stdout;
        combined.append("\n");
        combined.append(stderr);
        combined
    }
}

} // verus!
