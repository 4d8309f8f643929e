//! What a start of the language server comes to, reply by reply, however the replies differ.
use vstd::prelude::*;

use crate::host::{
    fits, BinarySettingsView, DirectoryEntryView, InstallationStatus, LspSettingsView, ReleaseView,
    ReplyView, RequestView,
};
use crate::json::JsonView;
use crate::platform::{Architecture, Os};
use crate::server::{
    plan_for, server_request, server_step, CommandView, InstallPlanView, ServerView,
};
use crate::server_laws::package_ignores_settings;

verus! {

/// The step, and the executable that is remembered, after some replies.
pub open spec fn server_talk(
    step: ServerView,
    cached: Option<Seq<char>>,
    replies: Seq<ReplyView>,
) -> (ServerView, Option<Seq<char>>)
    decreases replies.len(),
{
    if replies.len() == 0 {
        (step, cached)
    } else {
        let next = server_step(step, cached, replies[0]);
        server_talk(next.0, next.1, replies.drop_first())
    }
}

/// What was asked before each of some replies; nothing once there was a command or an error.
pub open spec fn server_questions(
    step: ServerView,
    cached: Option<Seq<char>>,
    replies: Seq<ReplyView>,
) -> Seq<Option<RequestView>>
    decreases replies.len(),
{
    if replies.len() == 0 {
        seq![]
    } else {
        let next = server_step(step, cached, replies[0]);
        seq![server_request(step)] + server_questions(next.0, next.1, replies.drop_first())
    }
}

/// Whether settings do not name an executable.
pub open spec fn name_nothing(settings: Option<LspSettingsView>) -> bool {
    match settings {
        Some(found) => match found.binary {
            Some(binary) => binary.path is None,
            None => true,
        },
        None => true,
    }
}

/// The step with the command that runs a program without arguments and variables.
pub open spec fn runs(path: Seq<char>) -> ServerView {
    ServerView::Finished(
        Ok(CommandView { command: path, args: Seq::empty(), env: Seq::empty() }),
    )
}

/// The step with an error.
pub open spec fn fails(message: Seq<char>) -> ServerView {
    ServerView::Finished(Err(message))
}

/// An executable that the settings name is run, whatever their value is and whatever is remembered,
/// and is not remembered.
pub proof fn named_executable_is_run(
    cached: Option<Seq<char>>,
    path: Seq<char>,
    value: Option<JsonView>,
)
    ensures
        ({
            let settings = LspSettingsView {
                binary: Some(BinarySettingsView { path: Some(path) }),
                settings: value,
            };
            let replies = seq![ReplyView::Settings(Some(settings))];
            &&& server_talk(ServerView::ReadSettings, cached, replies) == (runs(path), cached)
            &&& server_questions(ServerView::ReadSettings, cached, replies) == seq![
                Some(RequestView::LspSettings("xmake-ls"@)),
            ]
        }),
{
    reveal_with_fuel(server_talk, 2);
    reveal_with_fuel(server_questions, 2);
}

/// Where the settings name none, an executable on the search path is run and remembered, whatever
/// was remembered before.
pub proof fn executable_on_the_search_path_is_run(
    cached: Option<Seq<char>>,
    settings: Option<LspSettingsView>,
    path: Seq<char>,
)
    requires
        name_nothing(settings),
    ensures
        ({
            let replies = seq![ReplyView::Settings(settings), ReplyView::Program(Some(path))];
            &&& server_talk(ServerView::ReadSettings, cached, replies) == (runs(path), Some(path))
            &&& server_questions(ServerView::ReadSettings, cached, replies) == seq![
                Some(RequestView::LspSettings("xmake-ls"@)),
                Some(RequestView::Which("xmake_ls"@)),
            ]
        }),
{
    reveal_with_fuel(server_talk, 3);
    reveal_with_fuel(server_questions, 3);
}

/// Where the search path has none either, a remembered executable that is still there is run, and
/// stays remembered.
pub proof fn remembered_executable_is_run(settings: Option<LspSettingsView>, path: Seq<char>)
    requires
        name_nothing(settings),
    ensures
        ({
            let replies = seq![
                ReplyView::Settings(settings),
                ReplyView::Program(None),
                ReplyView::Present(true),
            ];
            &&& server_talk(ServerView::ReadSettings, Some(path), replies) == (
                runs(path),
                Some(path),
            )
            &&& server_questions(ServerView::ReadSettings, Some(path), replies) == seq![
                Some(RequestView::LspSettings("xmake-ls"@)),
                Some(RequestView::Which("xmake_ls"@)),
                Some(RequestView::IsFile(path)),
            ]
        }),
{
    reveal_with_fuel(server_talk, 4);
    reveal_with_fuel(server_questions, 4);
}

/// The replies up to the one on the latest release, where no executable is at hand: the settings
/// name none, the search path has none, and a remembered one is gone.
pub open spec fn nothing_at_hand(
    cached: Option<Seq<char>>,
    settings: Option<LspSettingsView>,
) -> Seq<ReplyView> {
    match cached {
        Some(_) => seq![
            ReplyView::Settings(settings),
            ReplyView::Program(None),
            ReplyView::Present(false),
            ReplyView::Acknowledged,
        ],
        None => seq![
            ReplyView::Settings(settings),
            ReplyView::Program(None),
            ReplyView::Acknowledged,
        ],
    }
}

/// What is asked before these replies.
pub open spec fn questions_at_hand(cached: Option<Seq<char>>) -> Seq<Option<RequestView>> {
    match cached {
        Some(path) => seq![
            Some(RequestView::LspSettings("xmake-ls"@)),
            Some(RequestView::Which("xmake_ls"@)),
            Some(RequestView::IsFile(path)),
            Some(RequestView::SetStatus(InstallationStatus::CheckingForUpdate)),
        ],
        None => seq![
            Some(RequestView::LspSettings("xmake-ls"@)),
            Some(RequestView::Which("xmake_ls"@)),
            Some(RequestView::SetStatus(InstallationStatus::CheckingForUpdate)),
        ],
    }
}

/// Where no executable is at hand, the check for an update is shown and the latest release of
/// `CppCXY/xmake_ls` that has assets and is no preview is asked for. Where there is none, the reason
/// is told, and nothing is forgotten.
pub proof fn release_is_asked_for(
    cached: Option<Seq<char>>,
    settings: Option<LspSettingsView>,
    message: Seq<char>,
)
    requires
        name_nothing(settings),
    ensures
        ({
            let replies = nothing_at_hand(cached, settings) + seq![
                ReplyView::Release(Err(message)),
            ];
            &&& server_talk(ServerView::ReadSettings, cached, replies) == (fails(message), cached)
            &&& server_questions(ServerView::ReadSettings, cached, replies) == questions_at_hand(
                cached,
            ) + seq![
                Some(
                    RequestView::LatestRelease {
                        repository: "CppCXY/xmake_ls"@,
                        require_assets: true,
                        pre_release: false,
                    },
                ),
            ]
        }),
{
    lemma_at_hand(cached, settings);
    let replies = nothing_at_hand(cached, settings);
    let reply = seq![ReplyView::Release(Err::<ReleaseView, Seq<char>>(message))];
    lemma_parts(ServerView::ReadSettings, cached, replies, reply);
    reveal_with_fuel(server_talk, 2);
    reveal_with_fuel(server_questions, 2);
}

/// The replies up to the one on whether the release is installed. On Linux the settings are read
/// again, and may have changed.
pub open spec fn release_known(
    cached: Option<Seq<char>>,
    settings: Option<LspSettingsView>,
    release: ReleaseView,
    os: Os,
    arch: Architecture,
    again: Option<LspSettingsView>,
) -> Seq<ReplyView> {
    nothing_at_hand(cached, settings) + if os == Os::Linux {
        seq![
            ReplyView::Release(Ok(release)),
            ReplyView::Platform(os, arch),
            ReplyView::Settings(again),
        ]
    } else {
        seq![ReplyView::Release(Ok(release)), ReplyView::Platform(os, arch)]
    }
}

/// What is asked before these replies.
pub open spec fn questions_until_known(cached: Option<Seq<char>>, os: Os) -> Seq<
    Option<RequestView>,
> {
    let release = Some(
        RequestView::LatestRelease {
            repository: "CppCXY/xmake_ls"@,
            require_assets: true,
            pre_release: false,
        },
    );
    questions_at_hand(cached) + if os == Os::Linux {
        seq![
            release,
            Some(RequestView::CurrentPlatform),
            Some(RequestView::LspSettings("xmake-ls"@)),
        ]
    } else {
        seq![release, Some(RequestView::CurrentPlatform)]
    }
}

/// The settings value, if the settings could be read and have one.
pub open spec fn value_of(settings: Option<LspSettingsView>) -> Option<JsonView> {
    match settings {
        Some(found) => found.settings,
        None => None,
    }
}

/// Where there is no plan for the release on the platform, with the settings value that was read
/// last, the reason is told, and nothing is forgotten.
pub proof fn release_without_a_plan_is_refused(
    cached: Option<Seq<char>>,
    settings: Option<LspSettingsView>,
    release: ReleaseView,
    os: Os,
    arch: Architecture,
    again: Option<LspSettingsView>,
    message: Seq<char>,
)
    requires
        name_nothing(settings),
        plan_for(release, os, arch, value_of(again)) == Err::<InstallPlanView, Seq<char>>(message),
    ensures
        ({
            let replies = release_known(cached, settings, release, os, arch, again);
            &&& server_talk(ServerView::ReadSettings, cached, replies) == (fails(message), cached)
            &&& server_questions(ServerView::ReadSettings, cached, replies)
                == questions_until_known(cached, os)
        }),
{
    lemma_known(cached, settings, release, os, arch, again);
}

/// A release whose executable is there already is run without being downloaded, and remembered.
pub proof fn installed_release_is_run(
    cached: Option<Seq<char>>,
    settings: Option<LspSettingsView>,
    release: ReleaseView,
    os: Os,
    arch: Architecture,
    again: Option<LspSettingsView>,
    plan: InstallPlanView,
)
    requires
        name_nothing(settings),
        plan_for(release, os, arch, value_of(again)) == Ok::<InstallPlanView, Seq<char>>(plan),
    ensures
        ({
            let replies = release_known(cached, settings, release, os, arch, again) + seq![
                ReplyView::Present(true),
            ];
            &&& server_talk(ServerView::ReadSettings, cached, replies) == (
                runs(plan.binary_path),
                Some(plan.binary_path),
            )
            &&& server_questions(ServerView::ReadSettings, cached, replies)
                == questions_until_known(cached, os) + seq![
                Some(RequestView::IsFile(plan.binary_path)),
            ]
        }),
{
    lemma_known(cached, settings, release, os, arch, again);
    lemma_parts(
        ServerView::ReadSettings,
        cached,
        release_known(cached, settings, release, os, arch, again),
        seq![ReplyView::Present(true)],
    );
    reveal_with_fuel(server_talk, 2);
    reveal_with_fuel(server_questions, 2);
}

/// A download that fails is told, and nothing is forgotten. The file of the plan was to be unpacked
/// in the directory of the plan.
pub proof fn failed_download_is_told(
    cached: Option<Seq<char>>,
    settings: Option<LspSettingsView>,
    release: ReleaseView,
    os: Os,
    arch: Architecture,
    again: Option<LspSettingsView>,
    plan: InstallPlanView,
    reason: Seq<char>,
)
    requires
        name_nothing(settings),
        plan_for(release, os, arch, value_of(again)) == Ok::<InstallPlanView, Seq<char>>(plan),
    ensures
        ({
            let replies = release_known(cached, settings, release, os, arch, again) + seq![
                ReplyView::Present(false),
                ReplyView::Acknowledged,
                ReplyView::Outcome(Err(reason)),
            ];
            &&& server_talk(ServerView::ReadSettings, cached, replies) == (
                fails("failed to download file: "@ + reason),
                cached,
            )
            &&& server_questions(ServerView::ReadSettings, cached, replies)
                == questions_until_known(cached, os) + questions_of_download(plan)
        }),
{
    let more = seq![
        ReplyView::Present(false),
        ReplyView::Acknowledged,
        ReplyView::Outcome(Err::<(), Seq<char>>(reason)),
    ];
    lemma_known(cached, settings, release, os, arch, again);
    lemma_parts(
        ServerView::ReadSettings,
        cached,
        release_known(cached, settings, release, os, arch, again),
        more,
    );
    reveal_with_fuel(server_talk, 4);
    reveal_with_fuel(server_questions, 4);
    assert(server_questions(ServerView::CheckInstalled(plan), cached, more)
        =~= questions_of_download(plan));
}

/// What is asked of a release that is not installed until it is downloaded.
pub open spec fn questions_of_download(plan: InstallPlanView) -> Seq<Option<RequestView>> {
    seq![
        Some(RequestView::IsFile(plan.binary_path)),
        Some(RequestView::SetStatus(InstallationStatus::Downloading)),
        Some(
            RequestView::DownloadFile {
                url: plan.url,
                directory: plan.version_dir,
                file_type: plan.file_type,
            },
        ),
    ]
}

/// The replies up to the walk through the directory, once the release is downloaded.
pub open spec fn downloaded() -> Seq<ReplyView> {
    seq![ReplyView::Present(false), ReplyView::Acknowledged, ReplyView::Outcome(Ok(()))]
}

/// A directory that cannot be walked is told, and nothing is forgotten. It is the one that releases
/// are unpacked in.
pub proof fn failed_listing_is_told(
    cached: Option<Seq<char>>,
    settings: Option<LspSettingsView>,
    release: ReleaseView,
    os: Os,
    arch: Architecture,
    again: Option<LspSettingsView>,
    plan: InstallPlanView,
    reason: Seq<char>,
)
    requires
        name_nothing(settings),
        plan_for(release, os, arch, value_of(again)) == Ok::<InstallPlanView, Seq<char>>(plan),
    ensures
        ({
            let replies = release_known(cached, settings, release, os, arch, again) + (downloaded()
                + seq![ReplyView::Outcome(Err(reason))]);
            &&& server_talk(ServerView::ReadSettings, cached, replies) == (
                fails("failed to list working directory "@ + reason),
                cached,
            )
            &&& server_questions(ServerView::ReadSettings, cached, replies)
                == questions_until_known(cached, os) + (questions_of_download(plan) + seq![
                Some(RequestView::ListDirectory("."@)),
            ])
        }),
{
    let more = seq![ReplyView::Outcome(Err::<(), Seq<char>>(reason))];
    lemma_known(cached, settings, release, os, arch, again);
    lemma_downloaded(plan, cached);
    lemma_parts(ServerView::CheckInstalled(plan), cached, downloaded(), more);
    lemma_parts(
        ServerView::ReadSettings,
        cached,
        release_known(cached, settings, release, os, arch, again),
        downloaded() + more,
    );
    reveal_with_fuel(server_talk, 2);
    reveal_with_fuel(server_questions, 2);
}

/// The replies of a walk past entries with these names: each entry, and, unless it is the directory
/// that is kept, that it is removed.
pub open spec fn walk(names: Seq<Option<Seq<char>>>, kept: Seq<char>) -> Seq<ReplyView>
    decreases names.len(),
{
    if names.len() == 0 {
        seq![]
    } else if names[0] == Some(kept) {
        seq![ReplyView::Entry(DirectoryEntryView::Named(names[0]))] + walk(names.drop_first(), kept)
    } else {
        seq![ReplyView::Entry(DirectoryEntryView::Named(names[0])), ReplyView::Acknowledged] + walk(
            names.drop_first(),
            kept,
        )
    }
}

/// What is asked before these replies.
pub open spec fn questions_of_walk(names: Seq<Option<Seq<char>>>, kept: Seq<char>) -> Seq<
    Option<RequestView>,
>
    decreases names.len(),
{
    if names.len() == 0 {
        seq![]
    } else if names[0] == Some(kept) {
        seq![Some(RequestView::NextEntry)] + questions_of_walk(names.drop_first(), kept)
    } else {
        seq![Some(RequestView::NextEntry), Some(RequestView::RemoveEntry)] + questions_of_walk(
            names.drop_first(),
            kept,
        )
    }
}

/// An entry that cannot be read ends the walk, and is told; nothing is forgotten.
pub proof fn unreadable_entry_is_told(
    cached: Option<Seq<char>>,
    settings: Option<LspSettingsView>,
    release: ReleaseView,
    os: Os,
    arch: Architecture,
    again: Option<LspSettingsView>,
    plan: InstallPlanView,
    names: Seq<Option<Seq<char>>>,
    reason: Seq<char>,
)
    requires
        name_nothing(settings),
        plan_for(release, os, arch, value_of(again)) == Ok::<InstallPlanView, Seq<char>>(plan),
    ensures
        ({
            let replies = release_known(cached, settings, release, os, arch, again) + (downloaded()
                + (seq![ReplyView::Outcome(Ok(()))] + (walk(names, "xmake_ls-"@ + release.version)
                + seq![ReplyView::Entry(DirectoryEntryView::Unreadable(reason))])));
            server_talk(ServerView::ReadSettings, cached, replies) == (
                fails("failed to load directory entry "@ + reason),
                cached,
            )
        }),
{
    let more = seq![ReplyView::Entry(DirectoryEntryView::Unreadable(reason))];
    lemma_walked(cached, settings, release, os, arch, again, plan, names, more);
    reveal_with_fuel(server_talk, 2);
}

/// A release is installed: it is downloaded, every other entry of the directory is removed, and its
/// executable is made one, but on Windows; then it is run and remembered.
pub proof fn release_is_installed(
    cached: Option<Seq<char>>,
    settings: Option<LspSettingsView>,
    release: ReleaseView,
    os: Os,
    arch: Architecture,
    again: Option<LspSettingsView>,
    plan: InstallPlanView,
    names: Seq<Option<Seq<char>>>,
)
    requires
        name_nothing(settings),
        plan_for(release, os, arch, value_of(again)) == Ok::<InstallPlanView, Seq<char>>(plan),
    ensures
        ({
            let kept = "xmake_ls-"@ + release.version;
            let last = if os == Os::Windows {
                seq![ReplyView::Entry(DirectoryEntryView::End)]
            } else {
                seq![ReplyView::Entry(DirectoryEntryView::End), ReplyView::Outcome(Ok(()))]
            };
            let asked = if os == Os::Windows {
                seq![Some(RequestView::NextEntry)]
            } else {
                seq![
                    Some(RequestView::NextEntry),
                    Some(RequestView::MakeExecutable(plan.binary_path)),
                ]
            };
            let replies = release_known(cached, settings, release, os, arch, again) + (downloaded()
                + (seq![ReplyView::Outcome(Ok(()))] + (walk(names, kept) + last)));
            &&& server_talk(ServerView::ReadSettings, cached, replies) == (
                runs(plan.binary_path),
                Some(plan.binary_path),
            )
            &&& server_questions(ServerView::ReadSettings, cached, replies)
                == questions_until_known(cached, os) + (questions_of_download(plan) + (seq![
                Some(RequestView::ListDirectory("."@)),
            ] + (questions_of_walk(names, kept) + asked)))
        }),
{
    let last = if os == Os::Windows {
        seq![ReplyView::Entry(DirectoryEntryView::End)]
    } else {
        seq![
            ReplyView::Entry(DirectoryEntryView::End),
            ReplyView::Outcome(Ok::<(), Seq<char>>(())),
        ]
    };
    lemma_walked(cached, settings, release, os, arch, again, plan, names, last);
    reveal_with_fuel(server_talk, 3);
    reveal_with_fuel(server_questions, 3);
    let asked = server_questions(ServerView::NextEntry(plan), cached, last);
    if os == Os::Windows {
        assert(asked =~= seq![Some(RequestView::NextEntry)]);
    } else {
        assert(asked =~= seq![
            Some(RequestView::NextEntry),
            Some(RequestView::MakeExecutable(plan.binary_path)),
        ]);
    }
}

/// An executable that cannot be made one is told, and nothing is forgotten.
pub proof fn refused_permission_is_told(
    cached: Option<Seq<char>>,
    settings: Option<LspSettingsView>,
    release: ReleaseView,
    os: Os,
    arch: Architecture,
    again: Option<LspSettingsView>,
    plan: InstallPlanView,
    names: Seq<Option<Seq<char>>>,
    message: Seq<char>,
)
    requires
        os != Os::Windows,
        name_nothing(settings),
        plan_for(release, os, arch, value_of(again)) == Ok::<InstallPlanView, Seq<char>>(plan),
    ensures
        ({
            let replies = release_known(cached, settings, release, os, arch, again) + (downloaded()
                + (seq![ReplyView::Outcome(Ok(()))] + (walk(names, "xmake_ls-"@ + release.version)
                + seq![
                ReplyView::Entry(DirectoryEntryView::End),
                ReplyView::Outcome(Err(message)),
            ])));
            server_talk(ServerView::ReadSettings, cached, replies) == (fails(message), cached)
        }),
{
    let more = seq![
        ReplyView::Entry(DirectoryEntryView::End),
        ReplyView::Outcome(Err::<(), Seq<char>>(message)),
    ];
    lemma_walked(cached, settings, release, os, arch, again, plan, names, more);
    reveal_with_fuel(server_talk, 3);
}

/// A reply to some other request changes nothing, and nothing changes once there is a command or an
/// error.
pub proof fn other_replies_do_not_matter_to_a_start(
    step: ServerView,
    cached: Option<Seq<char>>,
    reply: ReplyView,
)
    ensures
        match server_request(step) {
            Some(request) => !fits(request, reply) ==> server_step(step, cached, reply) == (
                step,
                cached,
            ),
            None => server_step(step, cached, reply) == (step, cached),
        },
{
}

/// Replies in two parts.
proof fn lemma_parts(
    step: ServerView,
    cached: Option<Seq<char>>,
    first: Seq<ReplyView>,
    second: Seq<ReplyView>,
)
    ensures
        ({
            let middle = server_talk(step, cached, first);
            &&& server_talk(step, cached, first + second) == server_talk(
                middle.0,
                middle.1,
                second,
            )
            &&& server_questions(step, cached, first + second) == server_questions(
                step,
                cached,
                first,
            ) + server_questions(middle.0, middle.1, second)
        }),
    decreases first.len(),
{
    let all = first + second;
    if first.len() == 0 {
        assert(all =~= second);
        let middle = server_talk(step, cached, first);
        assert(server_questions(step, cached, first) + server_questions(
            middle.0,
            middle.1,
            second,
        ) =~= server_questions(step, cached, second));
    } else {
        let next = server_step(step, cached, first[0]);
        let rest = first.drop_first();
        assert(all.drop_first() =~= rest + second);
        lemma_parts(next.0, next.1, rest, second);
        let middle = server_talk(step, cached, first);
        assert(server_questions(step, cached, all) =~= server_questions(step, cached, first)
            + server_questions(middle.0, middle.1, second));
    }
}

proof fn lemma_at_hand(cached: Option<Seq<char>>, settings: Option<LspSettingsView>)
    requires
        name_nothing(settings),
    ensures
        server_talk(ServerView::ReadSettings, cached, nothing_at_hand(cached, settings)) == (
            ServerView::FetchRelease,
            cached,
        ),
        server_questions(ServerView::ReadSettings, cached, nothing_at_hand(cached, settings))
            == questions_at_hand(cached),
{
    reveal_with_fuel(server_talk, 5);
    reveal_with_fuel(server_questions, 5);
    assert(server_questions(ServerView::ReadSettings, cached, nothing_at_hand(cached, settings))
        =~= questions_at_hand(cached));
}

proof fn lemma_known(
    cached: Option<Seq<char>>,
    settings: Option<LspSettingsView>,
    release: ReleaseView,
    os: Os,
    arch: Architecture,
    again: Option<LspSettingsView>,
)
    requires
        name_nothing(settings),
    ensures
        ({
            let replies = release_known(cached, settings, release, os, arch, again);
            &&& server_talk(ServerView::ReadSettings, cached, replies) == (
                match plan_for(release, os, arch, value_of(again)) {
                    Ok(plan) => ServerView::CheckInstalled(plan),
                    Err(message) => ServerView::Finished(Err(message)),
                },
                cached,
            )
            &&& server_questions(ServerView::ReadSettings, cached, replies)
                == questions_until_known(cached, os)
        }),
{
    lemma_at_hand(cached, settings);
    let more = if os == Os::Linux {
        seq![
            ReplyView::Release(Ok::<ReleaseView, Seq<char>>(release)),
            ReplyView::Platform(os, arch),
            ReplyView::Settings(again),
        ]
    } else {
        seq![
            ReplyView::Release(Ok::<ReleaseView, Seq<char>>(release)),
            ReplyView::Platform(os, arch),
        ]
    };
    lemma_parts(ServerView::ReadSettings, cached, nothing_at_hand(cached, settings), more);
    if os != Os::Linux {
        package_ignores_settings(os, arch, None, value_of(again));
    }
    reveal_with_fuel(server_talk, 4);
    reveal_with_fuel(server_questions, 4);
    assert(server_questions(ServerView::ReadSettings, cached, nothing_at_hand(cached, settings)
        + more) =~= questions_until_known(cached, os));
}

proof fn lemma_downloaded(plan: InstallPlanView, cached: Option<Seq<char>>)
    ensures
        server_talk(ServerView::CheckInstalled(plan), cached, downloaded()) == (
            ServerView::ListDirectory(plan),
            cached,
        ),
        server_questions(ServerView::CheckInstalled(plan), cached, downloaded())
            == questions_of_download(plan),
{
    reveal_with_fuel(server_talk, 4);
    reveal_with_fuel(server_questions, 4);
    assert(server_questions(ServerView::CheckInstalled(plan), cached, downloaded())
        =~= questions_of_download(plan));
}

proof fn lemma_walk(
    plan: InstallPlanView,
    cached: Option<Seq<char>>,
    names: Seq<Option<Seq<char>>>,
)
    ensures
        server_talk(ServerView::NextEntry(plan), cached, walk(names, plan.version_dir)) == (
            ServerView::NextEntry(plan),
            cached,
        ),
        server_questions(ServerView::NextEntry(plan), cached, walk(names, plan.version_dir))
            == questions_of_walk(names, plan.version_dir),
    decreases names.len(),
{
    if names.len() > 0 {
        let rest = names.drop_first();
        lemma_walk(plan, cached, rest);
        let named = ReplyView::Entry(DirectoryEntryView::Named(names[0]));
        let first = if names[0] == Some(plan.version_dir) {
            seq![named]
        } else {
            seq![named, ReplyView::Acknowledged]
        };
        lemma_parts(ServerView::NextEntry(plan), cached, first, walk(rest, plan.version_dir));
        reveal_with_fuel(server_talk, 3);
        reveal_with_fuel(server_questions, 3);
        let asked = server_questions(ServerView::NextEntry(plan), cached, first);
        if names[0] == Some(plan.version_dir) {
            assert(asked =~= seq![Some(RequestView::NextEntry)]);
        } else {
            assert(asked =~= seq![Some(RequestView::NextEntry), Some(RequestView::RemoveEntry)]);
        }
    }
}

/// The replies up to the end of the walk, and some more.
proof fn lemma_walked(
    cached: Option<Seq<char>>,
    settings: Option<LspSettingsView>,
    release: ReleaseView,
    os: Os,
    arch: Architecture,
    again: Option<LspSettingsView>,
    plan: InstallPlanView,
    names: Seq<Option<Seq<char>>>,
    more: Seq<ReplyView>,
)
    requires
        name_nothing(settings),
        plan_for(release, os, arch, value_of(again)) == Ok::<InstallPlanView, Seq<char>>(plan),
    ensures
        plan.os == os,
        ({
            let kept = "xmake_ls-"@ + release.version;
            let replies = release_known(cached, settings, release, os, arch, again) + (downloaded()
                + (seq![ReplyView::Outcome(Ok(()))] + (walk(names, kept) + more)));
            &&& server_talk(ServerView::ReadSettings, cached, replies) == server_talk(
                ServerView::NextEntry(plan),
                cached,
                more,
            )
            &&& server_questions(ServerView::ReadSettings, cached, replies)
                == questions_until_known(cached, os) + (questions_of_download(plan) + (seq![
                Some(RequestView::ListDirectory("."@)),
            ] + (questions_of_walk(names, kept) + server_questions(
                ServerView::NextEntry(plan),
                cached,
                more,
            ))))
        }),
{
    let kept = "xmake_ls-"@ + release.version;
    let listed = seq![ReplyView::Outcome(Ok::<(), Seq<char>>(()))];
    let walked = walk(names, kept) + more;
    lemma_known(cached, settings, release, os, arch, again);
    lemma_downloaded(plan, cached);
    lemma_walk(plan, cached, names);
    lemma_parts(ServerView::NextEntry(plan), cached, walk(names, kept), more);
    lemma_parts(ServerView::ListDirectory(plan), cached, listed, walked);
    lemma_parts(ServerView::CheckInstalled(plan), cached, downloaded(), listed + walked);
    lemma_parts(
        ServerView::ReadSettings,
        cached,
        release_known(cached, settings, release, os, arch, again),
        downloaded() + (listed + walked),
    );
    reveal_with_fuel(server_talk, 2);
    reveal_with_fuel(server_questions, 2);
    assert(server_questions(ServerView::ListDirectory(plan), cached, listed) =~= seq![
        Some(RequestView::ListDirectory("."@)),
    ]);
}

} // verus!
