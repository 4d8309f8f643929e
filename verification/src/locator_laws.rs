//! What the steps towards the debug scenario of a task come to.
use vstd::prelude::*;
use vstd::utf8::{encode_utf8, encode_utf8_decode_utf8, encode_utf8_valid_utf8};

use crate::config::XMakeDebugConfigView;
use crate::env_map::env_of;
use crate::host::{fits, ReplyView, RequestView, ScriptLookupView};
use crate::locator::{
    before_end, inside, lemma_after_begin, locator_config, locator_draft, locator_request, locator_start, locator_step,
    section_value, target_of, LocatorJobView, LocatorView,
};
use crate::scenario::{drafted_scenario, BuildTaskView, DebugScenarioView, TaskTemplateView};
use crate::text::{lines_end_at_feeds, lines_of, lines_of_parts, text_of_bytes, whole_lines};
use crate::world::{after, answer, World};

verus! {

/// The step after at most `count` more answers.
pub open spec fn locator_run(step: LocatorView, world: World, count: nat) -> LocatorView
    decreases count,
{
    match locator_request(step) {
        Some(request) => if count == 0 {
            step
        } else {
            locator_run(
                locator_step(step, answer(world, request)),
                after(world, request),
                (count - 1) as nat,
            )
        },
        None => step,
    }
}

/// What the script for target paths tells of a target in a directory: nothing where the attempt
/// fails, and otherwise the path of the target's program, if it is told.
pub open spec fn told_program(target: Seq<char>, cwd: Seq<char>, world: World) -> Option<
    Option<Seq<char>>,
> {
    match (world.script)("targetpath.lua"@) {
        ScriptLookupView::Missing => Some(None),
        ScriptLookupView::NotUnicode => None,
        ScriptLookupView::At(script) => match (world.output)(
            "xmake"@,
            seq!["l"@, script, target],
            cwd,
        ) {
            None => None,
            Some(bytes) => Some(section_value(lines_of(text_of_bytes(bytes)))),
        },
    }
}

/// What becomes of a task: a scenario that builds the task's target and launches its program as the
/// task does, unless the task has no directory, its program cannot be asked for, or the
/// configuration cannot be encoded.
pub open spec fn locator_outcome(
    task: TaskTemplateView,
    label: Seq<char>,
    adapter: Seq<char>,
    world: World,
) -> Option<DebugScenarioView> {
    match task.cwd {
        None => None,
        Some(cwd) => {
            let target = target_of(task.command, task.args);
            let job = LocatorJobView {
                target,
                args: task.args,
                env: task.env,
                cwd,
                label,
                adapter,
            };
            match told_program(target, cwd, world) {
                None => None,
                Some(program) => match (world.encode)(locator_config(job, program)) {
                    None => None,
                    Some(config) => Some(drafted_scenario(locator_draft(job, program), config)),
                },
            }
        },
    }
}

/// The steps end, after at most three answers, with what `locator_outcome` says.
pub proof fn scenario_is_found(
    task: TaskTemplateView,
    label: Seq<char>,
    adapter: Seq<char>,
    world: World,
    count: nat,
)
    requires
        count >= 3,
    ensures
        locator_run(locator_start(task, label, adapter), world, count) == LocatorView::Finished(
            locator_outcome(task, label, adapter, world),
        ),
{
    reveal_with_fuel(locator_run, 4);
}

/// Whether a line is the last of the section: it follows a `__begin__`, is none itself, and nothing
/// but more of these follows before the first `__end__`.
pub open spec fn ends_section(lines: Seq<Seq<char>>, at: int) -> bool {
    &&& 0 <= at < before_end(lines).len()
    &&& lines.take(at).contains("__begin__"@)
    &&& lines[at] != "__begin__"@
    &&& forall|i: int| at < i < before_end(lines).len() ==> lines[i] == "__begin__"@
}

/// The last line of the section is the one that is read, unless it is empty.
pub proof fn last_line_is_read(lines: Seq<Seq<char>>, at: int)
    requires
        ends_section(lines, at),
    ensures
        section_value(lines) == if lines[at].len() > 0 {
            Some(lines[at])
        } else {
            None
        },
{
    lines.index_of_first_ensures("__end__"@);
    let body = before_end(lines);
    let seen = lines.take(at);
    let earlier = choose|i: int| 0 <= i < seen.len() && seen[i] == "__begin__"@;
    assert(body[earlier] == "__begin__"@);
    body.index_of_first_ensures("__begin__"@);
    let begin = body.index_of_first("__begin__"@)->0;
    let rest = body.skip(begin + 1);
    lemma_last_kept(rest, at - begin - 1);
}

/// A path that is read is the last line of the section, and not empty.
pub proof fn read_path_is_the_last_line(lines: Seq<Seq<char>>, path: Seq<char>)
    requires
        section_value(lines) == Some(path),
    ensures
        path.len() > 0,
        exists|at: int| #[trigger] ends_section(lines, at) && lines[at] == path,
{
    lines.index_of_first_ensures("__end__"@);
    let body = before_end(lines);
    body.index_of_first_ensures("__begin__"@);
    let begin = body.index_of_first("__begin__"@)->0;
    let rest = body.skip(begin + 1);
    let place = lemma_last_place(rest);
    let at = begin + 1 + place;
    assert(lines.take(at)[begin] == "__begin__"@);
    assert(ends_section(lines, at)) by {
        assert forall|i: int| at < i < body.len() implies lines[i] == "__begin__"@ by {
            assert(rest[i - begin - 1] == lines[i]);
        }
    }
    lemma_last_kept(rest, place);
}

/// The last line that does not begin a section is the last that is kept.
proof fn lemma_last_kept(lines: Seq<Seq<char>>, at: int)
    requires
        0 <= at < lines.len(),
        lines[at] != "__begin__"@,
        forall|i: int| at < i < lines.len() ==> lines[i] == "__begin__"@,
    ensures
        lines.filter(inside()).len() > 0,
        lines.filter(inside()).last() == lines[at],
    decreases lines.len(),
{
    reveal(Seq::filter);
    if at < lines.len() - 1 {
        lemma_last_kept(lines.drop_last(), at);
    }
}

/// Where any line is kept, one is the last that does not begin a section.
proof fn lemma_last_place(lines: Seq<Seq<char>>) -> (at: int)
    requires
        lines.filter(inside()).len() > 0,
    ensures
        0 <= at < lines.len(),
        lines[at] != "__begin__"@,
        forall|i: int| at < i < lines.len() ==> lines[i] == "__begin__"@,
    decreases lines.len(),
{
    reveal(Seq::filter);
    if lines.last() != "__begin__"@ {
        lines.len() - 1
    } else {
        let shorter = lines.drop_last();
        let at: int = lemma_last_place(shorter);
        assert forall|i: int| at < i < lines.len() implies lines[i] == "__begin__"@ by {
            if i < shorter.len() {
                assert(shorter[i] == lines[i]);
            }
        }
        at
    }
}

/// A path that is printed after `__begin__` and right before the first `__end__` is the one that is
/// read, whatever else is printed before the section, in it before the path, and after it.
pub proof fn printed_path_is_read(
    before: Seq<Seq<char>>,
    noise: Seq<Seq<char>>,
    path: Seq<char>,
    rest: Seq<Seq<char>>,
)
    requires
        path.len() > 0,
        path != "__begin__"@,
        path != "__end__"@,
        !before.contains("__end__"@),
        !noise.contains("__end__"@),
    ensures
        section_value(before + seq!["__begin__"@] + noise + seq![path, "__end__"@] + rest) == Some(
            path,
        ),
{
    let all = before + seq!["__begin__"@] + noise + seq![path, "__end__"@] + rest;
    let at: int = (before.len() + 1 + noise.len()) as int;
    lemma_no_end(before, noise, path, seq!["__end__"@] + rest);
    assert(all =~= before + seq!["__begin__"@] + noise + seq![path] + (seq!["__end__"@] + rest));
    all.index_of_first_ensures("__end__"@);
    assert(all[at + 1] == "__end__"@);
    assert(all.take(at)[before.len() as int] == "__begin__"@);
    last_line_is_read(all, at);
}

/// A path that is printed last is read although no `__end__` follows.
pub proof fn path_without_an_end_is_read(
    before: Seq<Seq<char>>,
    noise: Seq<Seq<char>>,
    path: Seq<char>,
)
    requires
        path.len() > 0,
        path != "__begin__"@,
        path != "__end__"@,
        !before.contains("__end__"@),
        !noise.contains("__end__"@),
    ensures
        section_value(before + seq!["__begin__"@] + noise + seq![path]) == Some(path),
{
    let all = before + seq!["__begin__"@] + noise + seq![path];
    let at: int = (before.len() + 1 + noise.len()) as int;
    lemma_no_end(before, noise, path, seq![]);
    assert(all =~= all + Seq::<Seq<char>>::empty());
    all.index_of_first_ensures("__end__"@);
    assert(all.take(at)[before.len() as int] == "__begin__"@);
    last_line_is_read(all, at);
}

/// Nothing up to the path ends the section.
proof fn lemma_no_end(
    before: Seq<Seq<char>>,
    noise: Seq<Seq<char>>,
    path: Seq<char>,
    rest: Seq<Seq<char>>,
)
    requires
        path != "__end__"@,
        !before.contains("__end__"@),
        !noise.contains("__end__"@),
    ensures
        ({
            let all = before + seq!["__begin__"@] + noise + seq![path] + rest;
            forall|i: int|
                #![trigger all[i]]
                0 <= i <= before.len() + 1 + noise.len() ==> all[i] != "__end__"@
        }),
{
    let all = before + seq!["__begin__"@] + noise + seq![path] + rest;
    reveal_strlit("__begin__");
    reveal_strlit("__end__");
    assert("__begin__"@.len() != "__end__"@.len());
    assert forall|i: int|
        #![trigger all[i]]
        0 <= i <= before.len() + 1 + noise.len() implies all[i] != "__end__"@ by {
        if i < before.len() {
            assert(all[i] == before[i]);
        } else if before.len() < i <= before.len() + noise.len() {
            assert(all[i] == noise[i - before.len() - 1]);
        }
    }
}

/// Whether a text ends a line: a line feed, perhaps after a carriage return.
pub open spec fn ends_a_line(feed: Seq<char>) -> bool {
    feed == seq!['\n'] || feed == seq!['\r', '\n']
}

/// A line and its ending are the first of the lines.
proof fn lemma_line(line: Seq<char>, feed: Seq<char>, rest: Seq<char>)
    requires
        ends_a_line(feed),
        !line.contains('\n'),
        feed.len() == 1 && line.len() > 0 ==> line.last() != '\r',
    ensures
        lines_of(line + feed + rest) == seq![line] + lines_of(rest),
{
    if feed.len() == 1 {
        lines_end_at_feeds(line, rest);
    } else {
        let longer = line.push('\r');
        assert(line + feed + rest =~= longer + seq!['\n'] + rest);
        assert forall|i: int| 0 <= i < longer.len() implies longer[i] != '\n' by {
            if i < line.len() {
                assert(line.contains(line[i]));
            }
        }
        lines_end_at_feeds(longer, rest);
        assert(longer.drop_last() =~= line);
    }
}

/// A path that is printed on the last line after a line `__begin__` and before the first line
/// `__end__`, if there is one, is read back from the bytes that were printed, whatever lines are
/// printed before the section, in it before the path, and after it. Lines may end as they do on
/// Windows; where they do not, a path cannot end in a carriage return.
pub proof fn printed_bytes_are_read(
    before: Seq<char>,
    noise: Seq<char>,
    path: Seq<char>,
    feed: Seq<char>,
    last: Seq<char>,
)
    requires
        whole_lines(before),
        whole_lines(noise),
        !lines_of(before).contains("__end__"@),
        !lines_of(noise).contains("__end__"@),
        path.len() > 0,
        !path.contains('\n'),
        path != "__begin__"@,
        path != "__end__"@,
        ends_a_line(feed),
        feed.len() == 1 ==> path.last() != '\r',
        lines_of(last).len() > 0 ==> lines_of(last)[0] == "__end__"@,
    ensures
        section_value(
            lines_of(
                text_of_bytes(
                    encode_utf8(
                        before + ("__begin__"@ + feed + (noise + (path + feed + last))),
                    ),
                ),
            ),
        ) == Some(path),
{
    let line = path + feed + last;
    let section = "__begin__"@ + feed + (noise + line);
    let text = before + section;
    encode_utf8_valid_utf8(text);
    encode_utf8_decode_utf8(text);
    reveal_strlit("__begin__");
    lines_of_parts(before, section);
    lemma_line("__begin__"@, feed, noise + line);
    lines_of_parts(noise, line);
    lemma_line(path, feed, last);
    let first = lines_of(before);
    let middle = lines_of(noise);
    let end = lines_of(last);
    if end.len() == 0 {
        path_without_an_end_is_read(first, middle, path);
        assert(lines_of(text) =~= first + seq!["__begin__"@] + middle + seq![path]);
    } else {
        printed_path_is_read(first, middle, path, end.skip(1));
        assert(lines_of(text) =~= first + seq!["__begin__"@] + middle + seq![path, "__end__"@]
            + end.skip(1));
    }
}

/// Where nothing begins a section, no path is read.
pub proof fn no_section_no_path(lines: Seq<Seq<char>>)
    requires
        !lines.contains("__begin__"@),
    ensures
        section_value(lines) is None,
{
    lines.index_of_first_ensures("__end__"@);
    let body = before_end(lines);
    body.index_of_first_ensures("__begin__"@);
    if body.contains("__begin__"@) {
        let at = body.index_of_first("__begin__"@)->0;
        assert(lines[at] == "__begin__"@);
    }
}

/// What is read of printed lines, one line more at a time: nothing of none; of lines without an
/// `__end__`, nothing until there is a `__begin__`, and then the last line that is none, unless it is
/// empty; and nothing from the first `__end__` on counts.
pub proof fn section_grows_line_by_line(
    body: Seq<Seq<char>>,
    line: Seq<char>,
    rest: Seq<Seq<char>>,
)
    requires
        !body.contains("__end__"@),
        line != "__end__"@,
    ensures
        section_value(seq![]) is None,
        section_value(body + seq!["__end__"@] + rest) == section_value(body),
        !body.contains("__begin__"@) ==> section_value(body.push(line)) is None,
        line == "__begin__"@ ==> section_value(body.push(line)) == section_value(body),
        line != "__begin__"@ && body.contains("__begin__"@) ==> section_value(body.push(line))
            == if line.len() > 0 {
            Some(line)
        } else {
            None
        },
{
    let none: Seq<Seq<char>> = seq![];
    no_section_no_path(none);
    let ended = body + seq!["__end__"@] + rest;
    ended.index_of_first_ensures("__end__"@);
    assert(ended[body.len() as int] == "__end__"@);
    let end = ended.index_of_first("__end__"@)->0;
    assert(end == body.len()) by {
        if end < body.len() {
            assert(body[end] == "__end__"@);
        }
    }
    assert(ended.take(end) =~= body);
    body.index_of_first_ensures("__end__"@);
    let more = body.push(line);
    more.index_of_first_ensures("__end__"@);
    assert(!more.contains("__end__"@)) by {
        if more.contains("__end__"@) {
            let at = more.index_of_first("__end__"@)->0;
            if at < body.len() {
                assert(body[at] == "__end__"@);
            }
        }
    }
    lemma_after_begin(body, line);
    body.index_of_first_ensures("__begin__"@);
    more.index_of_first_ensures("__begin__"@);
}

/// The target of a call of `xmake` is its second argument, whatever the first one is and whatever
/// follows: its path is what the script is asked for, in the directory of the task.
pub proof fn second_argument_is_asked_for(
    task: TaskTemplateView,
    first: Seq<char>,
    target: Seq<char>,
    rest: Seq<Seq<char>>,
    cwd: Seq<char>,
    label: Seq<char>,
    adapter: Seq<char>,
    script: Seq<char>,
)
    requires
        task.command == "xmake"@,
        task.args == seq![first, target] + rest,
        task.cwd == Some(cwd),
    ensures
        locator_request(locator_start(task, label, adapter)) == Some(
            RequestView::FindScript("targetpath.lua"@),
        ),
        locator_request(
            locator_step(
                locator_start(task, label, adapter),
                ReplyView::Script(ScriptLookupView::At(script)),
            ),
        ) == Some(
            RequestView::RunProgram {
                program: "xmake"@,
                args: seq!["l"@, script, target],
                directory: cwd,
            },
        ),
{
}

/// The second argument of a call of `xmake` is also what the scenario builds.
pub proof fn second_argument_is_built(
    task: TaskTemplateView,
    first: Seq<char>,
    target: Seq<char>,
    rest: Seq<Seq<char>>,
    label: Seq<char>,
    adapter: Seq<char>,
    scenario: DebugScenarioView,
    world: World,
)
    requires
        task.command == "xmake"@,
        task.args == seq![first, target] + rest,
        locator_outcome(task, label, adapter, world) == Some(scenario),
    ensures
        scenario.build matches Some(build) && build.template.command == "xmake"@
            && build.template.args == seq!["build"@, target] && build.template.label == "Build "@
            + target,
{
}

/// A task that does not call `xmake`, or calls it with fewer than two arguments, is about the target
/// `default`.
pub proof fn other_tasks_are_about_the_default(
    task: TaskTemplateView,
    cwd: Seq<char>,
    label: Seq<char>,
    adapter: Seq<char>,
    script: Seq<char>,
    world: World,
)
    requires
        task.command != "xmake"@ || task.args.len() < 2,
        task.cwd == Some(cwd),
    ensures
        locator_request(
            locator_step(
                locator_start(task, label, adapter),
                ReplyView::Script(ScriptLookupView::At(script)),
            ),
        ) == Some(
            RequestView::RunProgram {
                program: "xmake"@,
                args: seq!["l"@, script, "default"@],
                directory: cwd,
            },
        ),
        locator_outcome(task, label, adapter, world) matches Some(scenario) ==> (
        scenario.build matches Some(build) && build.template.command == "xmake"@
            && build.template.args == seq!["build"@, "default"@] && build.template.label
            == "Build "@ + "default"@),
{
}

/// What becomes of a task with a directory whose target is known: where the script is there and can
/// be run, the program is the path that it printed; where the script is missing, the program stays
/// open. What is encoded launches that program with LLDB as the task does, and the scenario builds
/// the target. There is none where the script's path is not Unicode, or the script cannot be run, or
/// nothing is encoded.
pub proof fn task_becomes_a_scenario(
    task: TaskTemplateView,
    target: Seq<char>,
    cwd: Seq<char>,
    label: Seq<char>,
    adapter: Seq<char>,
    world: World,
)
    requires
        task.cwd == Some(cwd),
        if task.command == "xmake"@ && task.args.len() >= 2 {
            target == task.args[1]
        } else {
            target == "default"@
        },
    ensures
        ({
            let script = (world.script)("targetpath.lua"@);
            let output = (world.output)("xmake"@, seq!["l"@, script->0, target], cwd);
            let program = if script is Missing {
                None
            } else {
                section_value(lines_of(text_of_bytes(output->0)))
            };
            let encoded = (world.encode)(
                XMakeDebugConfigView {
                    program,
                    args: Some(task.args),
                    cwd: Some(cwd),
                    env: env_of(task.env),
                    request: "launch"@,
                    stop_at_entry: Some(false),
                    pid: None,
                    debugger: Some("lldb-dap"@),
                },
            );
            let known = script is Missing || script is At && output is Some;
            locator_outcome(task, label, adapter, world) == if known && encoded is Some {
                Some(
                    DebugScenarioView {
                        label,
                        adapter,
                        build: Some(
                            BuildTaskView {
                                locator_name: Some("xmake"@),
                                template: TaskTemplateView {
                                    label: "Build "@ + target,
                                    command: "xmake"@,
                                    args: seq!["build"@, target],
                                    env: seq![],
                                    cwd: Some(cwd),
                                },
                            },
                        ),
                        config: encoded->0,
                        tcp_connection: None,
                    },
                )
            } else {
                None
            }
        }),
{
}

/// A task without a directory becomes no scenario, and nothing is asked.
pub proof fn task_without_a_directory_is_left(
    task: TaskTemplateView,
    label: Seq<char>,
    adapter: Seq<char>,
    world: World,
)
    requires
        task.cwd is None,
    ensures
        locator_outcome(task, label, adapter, world) is None,
        locator_request(locator_start(task, label, adapter)) is None,
{
}

/// A reply to some other request changes nothing, and nothing changes once there is a scenario or
/// none.
pub proof fn other_replies_do_not_matter_to_a_task(step: LocatorView, reply: ReplyView)
    ensures
        match locator_request(step) {
            Some(request) => !fits(request, reply) ==> locator_step(step, reply) == step,
            None => locator_step(step, reply) == step,
        },
{
}

} // verus!
