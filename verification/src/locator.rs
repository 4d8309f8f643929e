//! The locator: how a task becomes a debug scenario.
use vstd::prelude::*;

use crate::config::{XMakeDebugConfig, XMakeDebugConfigView};
use crate::env_map::{env_of, EnvMap};
use crate::host::{Reply, ReplyView, Request, RequestView, ScriptLookup, ScriptLookupView};
use crate::scenario::{
    drafted_scenario, BuildTask, BuildTaskView, DebugScenario, DebugScenarioView, ScenarioDraft,
    ScenarioDraftView, TaskTemplate, TaskTemplateView,
};
use crate::text::{decode_lossy, lines, lines_of, same_text, text_of_bytes};

verus! {

/// Whether a line does not begin a section.
pub open spec fn inside() -> spec_fn(Seq<char>) -> bool {
    |line: Seq<char>| line != "__begin__"@
}

/// The lines before the one that ends the section.
pub open spec fn before_end(lines: Seq<Seq<char>>) -> Seq<Seq<char>> {
    match lines.index_of_first("__end__"@) {
        Some(end) => lines.take(end),
        None => lines,
    }
}

/// The lines after the one that begins the section; none if there is no such line.
pub open spec fn after_begin(lines: Seq<Seq<char>>) -> Seq<Seq<char>> {
    match lines.index_of_first("__begin__"@) {
        Some(begin) => lines.skip(begin + 1).filter(inside()),
        None => Seq::empty(),
    }
}

/// The last line of the section that `__begin__` begins and `__end__` ends, if there is one and
/// it is not empty.
pub open spec fn section_value(lines: Seq<Seq<char>>) -> Option<Seq<char>> {
    let section = after_begin(before_end(lines));
    if section.len() > 0 && section.last().len() > 0 {
        Some(section.last())
    } else {
        None
    }
}

/// How many lines come before the one that ends the section.
fn count_before_end(lines: &Vec<String>) -> (count: usize)
    ensures
        count <= lines.len(),
        before_end(lines.deep_view()) == lines.deep_view().take(count as int),
{
    let ghost all = lines.deep_view();
    proof {
        all.index_of_first_ensures("__end__"@);
    }
    for i in 0..lines.len()
        invariant
            all == lines.deep_view(),
            forall|k: int| 0 <= k < i ==> all[k] != "__end__"@,
    {
        if same_text(lines[i].as_str(), "__end__") {
            proof {
                assert(all[i as int] == "__end__"@);
                all.index_of_first_ensures("__end__"@);
            }
            return i;
        }
    }
    proof {
        assert(all.take(lines.len() as int) =~= all);
    }
    lines.len()
}

/// The path that the script for target paths printed, if it did.
pub fn printed_path(output: &str) -> (path: Option<String>)
    ensures
        path.deep_view() == section_value(lines_of(output@)),
{
    let found = lines(output);
    let count = count_before_end(&found);
    let mut in_section = false;
    let mut path = String::new();
    let ghost all = found.deep_view();
    proof {
        assert(all.take(0) =~= Seq::empty());
        all.take(0).index_of_first_ensures("__begin__"@);
    }
    for i in 0..count
        invariant
            count <= found.len(),
            all == found.deep_view(),
            in_section == all.take(i as int).contains("__begin__"@),
            path@ == last_or_empty(after_begin(all.take(i as int))),
    {
        let line = &found[i];
        let ghost seen = all.take(i as int);
        proof {
            lemma_after_begin(seen, line@);
            assert(all.take(i + 1) =~= seen.push(line@));
            assert(seen.push(line@).contains("__begin__"@) == (seen.contains("__begin__"@) || line@
                == "__begin__"@)) by {
                vstd::seq_lib::lemma_seq_contains_after_push(seen, line@, "__begin__"@);
            }
        }
        if same_text(line.as_str(), "__begin__") {
            in_section = true;
        } else if in_section {
            path = line.clone();
        }
    }
    if path.as_str().is_empty() {
        None
    } else {
        Some(path)
    }
}

/// The last of a list of texts, or the empty text.
spec fn last_or_empty(texts: Seq<Seq<char>>) -> Seq<char> {
    if texts.len() > 0 {
        texts.last()
    } else {
        Seq::empty()
    }
}

/// One more line: it joins the section unless it begins one or none has begun.
pub proof fn lemma_after_begin(lines: Seq<Seq<char>>, line: Seq<char>)
    ensures
        after_begin(lines.push(line)) == if line != "__begin__"@ && lines.contains("__begin__"@) {
            after_begin(lines).push(line)
        } else {
            after_begin(lines)
        },
{
    let more = lines.push(line);
    lines.index_of_first_ensures("__begin__"@);
    more.index_of_first_ensures("__begin__"@);
    reveal(Seq::filter);
    if lines.contains("__begin__"@) {
        let begin = lines.index_of_first("__begin__"@)->0;
        assert(more[begin] == "__begin__"@);
        assert(more.index_of_first("__begin__"@) == Some(begin)) by {
            let first = more.index_of_first("__begin__"@)->0;
            if first < begin {
                assert(lines[first] == "__begin__"@);
            }
        }
        let rest = lines.skip(begin + 1);
        assert(more.skip(begin + 1) =~= rest.push(line));
        assert(rest.push(line).drop_last() =~= rest);
    } else if line == "__begin__"@ {
        assert(more[lines.len() as int] == "__begin__"@);
        assert(more.index_of_first("__begin__"@) == Some(lines.len() as int)) by {
            let first = more.index_of_first("__begin__"@)->0;
            if first < lines.len() {
                assert(lines[first] == "__begin__"@);
            }
        }
        assert(more.skip(lines.len() as int + 1) =~= Seq::empty());
    } else {
        assert(!more.contains("__begin__"@)) by {
            if more.contains("__begin__"@) {
                let at = more.index_of_first("__begin__"@)->0;
                if at < lines.len() {
                    assert(lines[at] == "__begin__"@);
                }
            }
        }
    }
}

/// The path of a script of the extension: that of `assets` and the script's name, joined to the
/// directory of the extension's executable. There is none if the executable is not known, has no
/// directory, or nothing is present at that path.
///
/// How a path is kept, and what `parent`, `join` and `present` find, is up to the machine.
pub fn get_assets_script_path<P>(
    script_name: &str,
    executable: Option<P>,
    parent: impl Fn(&P) -> Option<P>,
    join: impl Fn(&P, &str) -> P,
    present: impl Fn(&P) -> bool,
) -> (path: Option<P>)
    requires
        forall|p: P| #[trigger] call_requires(parent, (&p,)),
        forall|p: P, part: &str| #[trigger] call_requires(join, (&p, part)),
        forall|p: P| #[trigger] call_requires(present, (&p,)),
    ensures
        match (executable, path) {
            (None, found) => found is None,
            (Some(exe), Some(found)) => exists|directory: P, assets: P|
                {
                    &&& #[trigger] call_ensures(parent, (&exe,), Some(directory))
                    &&& #[trigger] call_ensures(join, (&directory, "assets"), assets)
                    &&& call_ensures(join, (&assets, script_name), found)
                    &&& call_ensures(present, (&found,), true)
                },
            (Some(exe), None) => {
                ||| call_ensures(parent, (&exe,), None)
                ||| exists|directory: P, assets: P, missing: P|
                    {
                        &&& #[trigger] call_ensures(parent, (&exe,), Some(directory))
                        &&& #[trigger] call_ensures(join, (&directory, "assets"), assets)
                        &&& #[trigger] call_ensures(join, (&assets, script_name), missing)
                        &&& call_ensures(present, (&missing,), false)
                    }
            },
        },
{
    match executable {
        None => None,
        Some(exe) => match parent(&exe) {
            None => None,
            Some(directory) => {
                let assets = join(&directory, "assets");
                let path = join(&assets, script_name);
                if present(&path) {
                    Some(path)
                } else {
                    None
                }
            },
        },
    }
}

/// What is known of a script, given its path, if there is one: the text of the path, if it has one.
pub fn script_lookup<P>(path: Option<P>, text: impl Fn(&P) -> Option<String>) -> (lookup:
    ScriptLookup)
    requires
        forall|p: P| #[trigger] call_requires(text, (&p,)),
    ensures
        match path {
            None => lookup is Missing,
            Some(found) => match lookup {
                ScriptLookup::Missing => false,
                ScriptLookup::NotUnicode => call_ensures(text, (&found,), None),
                ScriptLookup::At(at) => call_ensures(text, (&found,), Some(at)),
            },
        },
{
    match path {
        None => ScriptLookup::Missing,
        Some(found) => match text(&found) {
            None => ScriptLookup::NotUnicode,
            Some(at) => ScriptLookup::At(at),
        },
    }
}

/// The target that a task is about: the second argument of a call of `xmake`, and `default` where
/// there is none or something else is called.
pub open spec fn target_of(command: Seq<char>, args: Seq<Seq<char>>) -> Seq<char> {
    if command == "xmake"@ && args.len() > 1 {
        args[1]
    } else {
        "default"@
    }
}

/// The target that a task is about.
fn target_name(command: &String, args: &Vec<String>) -> (target: String)
    ensures
        target@ == target_of(command@, args.deep_view()),
{
    if same_text(command.as_str(), "xmake") && args.len() > 1 {
        args[1].clone()
    } else {
        "default".to_string()
    }
}

/// A task that is to become a scenario.
#[derive(Debug, PartialEq, Eq)]
pub struct LocatorJob {
    pub target: String,
    pub args: Vec<String>,
    pub env: Vec<(String, String)>,
    /// The directory of the task.
    pub cwd: String,
    /// The label of the scenario.
    pub label: String,
    /// The adapter of the scenario.
    pub adapter: String,
}

#[verifier::ext_equal]
pub struct LocatorJobView {
    pub target: Seq<char>,
    pub args: Seq<Seq<char>>,
    pub env: Seq<(Seq<char>, Seq<char>)>,
    pub cwd: Seq<char>,
    pub label: Seq<char>,
    pub adapter: Seq<char>,
}

impl DeepView for LocatorJob {
    type V = LocatorJobView;

    open spec fn deep_view(&self) -> LocatorJobView {
        LocatorJobView {
            target: self.target@,
            args: self.args.deep_view(),
            env: self.env.deep_view(),
            cwd: self.cwd@,
            label: self.label@,
            adapter: self.adapter@,
        }
    }
}

/// The task that builds a target in a directory.
pub open spec fn build_template(target: Seq<char>, cwd: Seq<char>) -> TaskTemplateView {
    TaskTemplateView {
        label: "Build "@ + target,
        command: "xmake"@,
        args: seq!["build"@, target],
        env: seq![],
        cwd: Some(cwd),
    }
}

/// The configuration that launches a program in the way of a task.
pub open spec fn locator_config(job: LocatorJobView, program: Option<Seq<char>>) -> XMakeDebugConfigView {
    XMakeDebugConfigView {
        program,
        args: Some(job.args),
        cwd: Some(job.cwd),
        env: env_of(job.env),
        request: "launch"@,
        stop_at_entry: Some(false),
        pid: None,
        debugger: Some("lldb-dap"@),
    }
}

/// The scenario of a task whose program is known, or not, still to be encoded.
pub open spec fn locator_draft(job: LocatorJobView, program: Option<Seq<char>>) -> ScenarioDraftView {
    ScenarioDraftView {
        label: job.label,
        adapter: job.adapter,
        build: Some(
            BuildTaskView {
                locator_name: Some("xmake"@),
                template: build_template(job.target, job.cwd),
            },
        ),
        config: locator_config(job, program),
    }
}

/// A step towards the scenario of a task.
#[derive(Debug)]
pub enum LocatorStep {
    /// Asks for the script that prints the path of a target.
    FindScript(LocatorJob),
    /// Runs that script.
    RunScript(LocatorJob, String),
    /// Has the configuration encoded.
    Encode(ScenarioDraft),
    /// The scenario, if there is one.
    Finished(Option<DebugScenario>),
}

#[verifier::ext_equal]
pub enum LocatorView {
    FindScript(LocatorJobView),
    RunScript(LocatorJobView, Seq<char>),
    Encode(ScenarioDraftView),
    Finished(Option<DebugScenarioView>),
}

impl DeepView for LocatorStep {
    type V = LocatorView;

    open spec fn deep_view(&self) -> LocatorView {
        match self {
            LocatorStep::FindScript(job) => LocatorView::FindScript(job.deep_view()),
            LocatorStep::RunScript(job, script) => LocatorView::RunScript(
                job.deep_view(),
                script@,
            ),
            LocatorStep::Encode(draft) => LocatorView::Encode(draft.deep_view()),
            LocatorStep::Finished(scenario) => LocatorView::Finished(scenario.deep_view()),
        }
    }
}

/// The first step: a task without a directory becomes no scenario.
pub open spec fn locator_start(
    task: TaskTemplateView,
    label: Seq<char>,
    adapter: Seq<char>,
) -> LocatorView {
    match task.cwd {
        None => LocatorView::Finished(None),
        Some(cwd) => LocatorView::FindScript(
            LocatorJobView {
                target: target_of(task.command, task.args),
                args: task.args,
                env: task.env,
                cwd,
                label,
                adapter,
            },
        ),
    }
}

/// What a step asks; nothing once it is finished.
pub open spec fn locator_request(step: LocatorView) -> Option<RequestView> {
    match step {
        LocatorView::FindScript(_) => Some(
            RequestView::FindScript("targetpath.lua"@),
        ),
        LocatorView::RunScript(job, script) => Some(
            RequestView::RunProgram {
                program: "xmake"@,
                args: seq!["l"@, script, job.target],
                directory: job.cwd,
            },
        ),
        LocatorView::Encode(draft) => Some(RequestView::EncodeConfig(draft.config)),
        LocatorView::Finished(_) => None,
    }
}

/// The step after a reply. A reply to some other request changes nothing.
pub open spec fn locator_step(step: LocatorView, reply: ReplyView) -> LocatorView {
    match (step, reply) {
        (LocatorView::FindScript(job), ReplyView::Script(script)) => match script {
            ScriptLookupView::Missing => LocatorView::Encode(locator_draft(job, None)),
            ScriptLookupView::NotUnicode => LocatorView::Finished(None),
            ScriptLookupView::At(path) => LocatorView::RunScript(job, path),
        },
        (LocatorView::RunScript(job, _), ReplyView::Output(output)) => match output {
            None => LocatorView::Finished(None),
            Some(bytes) => LocatorView::Encode(
                locator_draft(job, section_value(lines_of(text_of_bytes(bytes)))),
            ),
        },
        (LocatorView::Encode(draft), ReplyView::Encoded(encoded)) => match encoded {
            None => LocatorView::Finished(None),
            Some(config) => LocatorView::Finished(Some(drafted_scenario(draft, config))),
        },
        _ => step,
    }
}

/// The first step towards the scenario of a task.
pub fn dap_locator_create_scenario(
    build_task: TaskTemplate,
    resolved_label: String,
    debug_adapter_name: String,
) -> (step: LocatorStep)
    ensures
        step.deep_view() == locator_start(
            build_task.deep_view(),
            resolved_label@,
            debug_adapter_name@,
        ),
{
    match build_task.cwd {
        None => LocatorStep::Finished(None),
        Some(cwd) => LocatorStep::FindScript(
            LocatorJob {
                target: target_name(&build_task.command, &build_task.args),
                args: build_task.args,
                env: build_task.env,
                cwd,
                label: resolved_label,
                adapter: debug_adapter_name,
            },
        ),
    }
}

/// The scenario of a task whose program is known, or not, still to be encoded.
fn draft_scenario(job: LocatorJob, program: Option<String>) -> (draft: ScenarioDraft)
    ensures
        draft.deep_view() == locator_draft(job.deep_view(), program.deep_view()),
{
    let config = XMakeDebugConfig {
        program,
        args: Some(job.args),
        cwd: Some(job.cwd.clone()),
        env: EnvMap::from_pairs(job.env),
        request: "launch".to_string(),
        stop_at_entry: Some(false),
        pid: None,
        debugger: Some("lldb-dap".to_string()),
    };
    let template = TaskTemplate {
        label: "Build ".to_string().concat(job.target.as_str()),
        command: "xmake".to_string(),
        args: vec!["build".to_string(), job.target],
        env: vec![],
        cwd: Some(job.cwd),
    };
    assert(template.deep_view() =~= build_template(job.target@, job.cwd@)) by {
        assert(template.args.deep_view() =~= seq!["build"@, job.target@]);
        assert(template.env.deep_view() =~= seq![]);
    }
    ScenarioDraft {
        label: job.label,
        adapter: job.adapter,
        build: Some(BuildTask { locator_name: Some("xmake".to_string()), template }),
        config,
    }
}

impl LocatorStep {
    /// What this step asks; nothing once it is finished.
    pub fn request(&self) -> (request: Option<Request>)
        ensures
            request.deep_view() == locator_request(self.deep_view()),
    {
        match self {
            LocatorStep::FindScript(_) => Some(
                Request::FindScript("targetpath.lua".to_string()),
            ),
            LocatorStep::RunScript(job, script) => {
                let args = vec!["l".to_string(), script.clone(), job.target.clone()];
                assert(args.deep_view() =~= seq!["l"@, script@, job.target@]);
                Some(
                    Request::RunProgram {
                        program: "xmake".to_string(),
                        args,
                        directory: job.cwd.clone(),
                    },
                )
            },
            LocatorStep::Encode(draft) => Some(Request::EncodeConfig(draft.config.clone())),
            LocatorStep::Finished(_) => None,
        }
    }

    /// The step after a reply. A reply to some other request changes nothing.
    pub fn advance(self, reply: Reply) -> (next: LocatorStep)
        ensures
            next.deep_view() == locator_step(self.deep_view(), reply.deep_view()),
    {
        match (self, reply) {
            (LocatorStep::FindScript(job), Reply::Script(script)) => match script {
                ScriptLookup::Missing => LocatorStep::Encode(draft_scenario(job, None)),
                ScriptLookup::NotUnicode => LocatorStep::Finished(None),
                ScriptLookup::At(path) => LocatorStep::RunScript(job, path),
            },
            (LocatorStep::RunScript(job, _), Reply::Output(output)) => match output {
                None => LocatorStep::Finished(None),
                Some(bytes) => {
                    assert(bytes.deep_view() =~= bytes@);
                    let text = decode_lossy(&bytes);
                    LocatorStep::Encode(draft_scenario(job, printed_path(text.as_str())))
                },
            },
            (LocatorStep::Encode(draft), Reply::Encoded(encoded)) => match encoded {
                None => LocatorStep::Finished(None),
                Some(config) => LocatorStep::Finished(Some(draft.finish(config))),
            },
            (step, _) => step,
        }
    }
}

} // verus!
