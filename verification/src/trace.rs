//! What holds of whole sessions, whatever the host answers.
//!
//! A session is looked at from outside: the events that the caller reports, in
//! order, and the actions that the session answers with. The laws here speak of
//! how often the installer is asked to run, and of what a session ends in.

use crate::builder::build_outcome;
use crate::command::LaunchCommandView;
use crate::config::ConfigView;
use crate::error::{BuildErrorView, ErrorView, ResolutionErrorView};
use crate::json::JsonView;
use crate::resolver::PackageIdentityView;
use crate::session::{
    is_over, opening, registry_failure, transition, ActionView, EventView, StateView,
};
use vstd::prelude::*;

verus! {

/// The actions that a session in `state` answers `events` with, one for each.
pub open spec fn replies(config: ConfigView, state: StateView, events: Seq<EventView>) -> Seq<
    ActionView,
>
    decreases events.len(),
{
    if events.len() == 0 {
        Seq::empty()
    } else {
        let (next, action) = transition(config, state, events[0]);
        seq![action] + replies(config, next, events.drop_first())
    }
}

/// Where a session in `state` stands after `events`.
pub open spec fn reached(config: ConfigView, state: StateView, events: Seq<EventView>) -> StateView
    decreases events.len(),
{
    if events.len() == 0 {
        state
    } else {
        reached(config, transition(config, state, events[0]).0, events.drop_first())
    }
}

/// All that a session asks of its caller from its beginning, as `events` arrive.
pub open spec fn session_actions(config: ConfigView, events: Seq<EventView>) -> Seq<ActionView> {
    seq![opening(config).1] + replies(config, opening(config).0, events)
}

/// How often `actions` ask the installer to run.
pub open spec fn installs(actions: Seq<ActionView>) -> nat
    decreases actions.len(),
{
    if actions.len() == 0 {
        0
    } else if actions[0] is Install {
        1 + installs(actions.drop_first())
    } else {
        installs(actions.drop_first())
    }
}

/// What `actions` end in: the first command or failure among them.
pub open spec fn verdict(actions: Seq<ActionView>) -> Option<Result<LaunchCommandView, ErrorView>>
    decreases actions.len(),
{
    if actions.len() == 0 {
        None
    } else {
        match actions[0] {
            ActionView::Launch(command) => Some(Ok(command)),
            ActionView::Fail(error) => Some(Err(error)),
            _ => verdict(actions.drop_first()),
        }
    }
}

/// What building ends in, as the end of a session.
pub open spec fn session_end(built: Result<LaunchCommandView, BuildErrorView>) -> Result<
    LaunchCommandView,
    ErrorView,
> {
    match built {
        Ok(command) => Ok(command),
        Err(error) => Err(ErrorView::Build(error)),
    }
}

proof fn lemma_installs_step(first: ActionView, rest: Seq<ActionView>)
    ensures
        installs(seq![first] + rest) == installs(rest) + (if first is Install {
            1nat
        } else {
            0nat
        }),
{
    assert((seq![first] + rest).drop_first() == rest);
}

proof fn lemma_verdict_step(first: ActionView, rest: Seq<ActionView>)
    ensures
        verdict(seq![first] + rest) == match first {
            ActionView::Launch(command) => Some(Ok::<LaunchCommandView, ErrorView>(command)),
            ActionView::Fail(error) => Some(Err::<LaunchCommandView, ErrorView>(error)),
            _ => verdict(rest),
        },
{
    assert((seq![first] + rest).drop_first() == rest);
}

proof fn lemma_replies_step(
    config: ConfigView,
    state: StateView,
    first: EventView,
    rest: Seq<EventView>,
)
    ensures
        replies(config, state, seq![first] + rest) == seq![transition(config, state, first).1]
            + replies(config, transition(config, state, first).0, rest),
{
    assert((seq![first] + rest).drop_first() == rest);
}

/// Once both versions are known, a session never asks for an install again.
pub proof fn lemma_no_install_past_the_versions(
    config: ConfigView,
    state: StateView,
    events: Seq<EventView>,
)
    requires
        !(state is QueryingInstalled),
        !(state is QueryingLatest),
    ensures
        installs(replies(config, state, events)) == 0,
    decreases events.len(),
{
    if events.len() > 0 {
        let (next, action) = transition(config, state, events[0]);
        lemma_no_install_past_the_versions(config, next, events.drop_first());
        lemma_installs_step(action, replies(config, next, events.drop_first()));
    }
}

proof fn lemma_installs_once_versions_are_known(
    config: ConfigView,
    installed: Option<Seq<char>>,
    latest: Seq<char>,
    later: Seq<EventView>,
)
    ensures
        ({
            let actions = session_actions(
                config,
                seq![
                    EventView::InstalledVersion(Ok(installed)),
                    EventView::LatestVersion(Ok(latest)),
                ] + later,
            );
            let asked = StateView::QueryingLatest { installed };
            &&& actions.len() >= 3
            &&& actions[2] == transition(config, asked, EventView::LatestVersion(Ok(latest))).1
            &&& installs(actions) == if actions[2] is Install {
                1nat
            } else {
                0nat
            }
        }),
{
    let first = EventView::InstalledVersion(Ok(installed));
    let second = EventView::LatestVersion(Ok(latest));
    let events = seq![first, second] + later;
    assert(events == seq![first] + (seq![second] + later));
    let asked = StateView::QueryingLatest { installed };
    lemma_replies_step(config, opening(config).0, first, seq![second] + later);
    lemma_replies_step(config, asked, second, later);
    let settled = transition(config, asked, second);
    lemma_no_install_past_the_versions(config, settled.0, later);
    lemma_installs_step(settled.1, replies(config, settled.0, later));
    lemma_installs_step(
        transition(config, opening(config).0, first).1,
        replies(config, asked, seq![second] + later),
    );
    lemma_installs_step(opening(config).1, replies(config, opening(config).0, events));
}

/// Where the installed version is the latest, the installer is never asked to
/// run, whatever happens afterwards.
pub proof fn lemma_current_package_is_never_installed(
    config: ConfigView,
    version: Seq<char>,
    later: Seq<EventView>,
)
    ensures
        installs(
            session_actions(
                config,
                seq![
                    EventView::InstalledVersion(Ok(Some(version))),
                    EventView::LatestVersion(Ok(version)),
                ] + later,
            ),
        ) == 0,
{
    lemma_installs_once_versions_are_known(config, Some(version), version, later);
}

/// Where the installed version is not the latest, or nothing is installed, the
/// installer is asked to run exactly once, with the latest version, as soon as
/// both versions are known; whatever happens afterwards.
pub proof fn lemma_stale_package_is_installed_once(
    config: ConfigView,
    installed: Option<Seq<char>>,
    latest: Seq<char>,
    later: Seq<EventView>,
)
    requires
        installed != Some(latest),
    ensures
        ({
            let actions = session_actions(
                config,
                seq![
                    EventView::InstalledVersion(Ok(installed)),
                    EventView::LatestVersion(Ok(latest)),
                ] + later,
            );
            &&& installs(actions) == 1
            &&& actions[2] == ActionView::Install(
                PackageIdentityView { name: config.package_name, version: latest },
            )
        }),
{
    lemma_installs_once_versions_are_known(config, installed, latest, later);
}

proof fn lemma_at_most_one_install_from(
    config: ConfigView,
    state: StateView,
    events: Seq<EventView>,
)
    ensures
        installs(replies(config, state, events)) <= 1,
    decreases events.len(),
{
    if events.len() > 0 {
        let (next, action) = transition(config, state, events[0]);
        lemma_installs_step(action, replies(config, next, events.drop_first()));
        if action is Install {
            lemma_no_install_past_the_versions(config, next, events.drop_first());
        } else {
            lemma_at_most_one_install_from(config, next, events.drop_first());
        }
    }
}

/// No session asks the installer to run more than once.
pub proof fn lemma_at_most_one_install(config: ConfigView, events: Seq<EventView>)
    ensures
        installs(session_actions(config, events)) <= 1,
{
    lemma_at_most_one_install_from(config, opening(config).0, events);
    lemma_installs_step(opening(config).1, replies(config, opening(config).0, events));
}

proof fn lemma_replies_concat(
    config: ConfigView,
    state: StateView,
    before: Seq<EventView>,
    after: Seq<EventView>,
)
    ensures
        replies(config, state, before + after) == replies(config, state, before) + replies(
            config,
            reached(config, state, before),
            after,
        ),
    decreases before.len(),
{
    if before.len() == 0 {
        assert(before + after == after);
    } else {
        let (next, action) = transition(config, state, before[0]);
        assert((before + after).drop_first() == before.drop_first() + after);
        lemma_replies_concat(config, next, before.drop_first(), after);
    }
}

proof fn lemma_verdict_concat(before: Seq<ActionView>, after: Seq<ActionView>)
    ensures
        verdict(before + after) == if verdict(before) is Some {
            verdict(before)
        } else {
            verdict(after)
        },
    decreases before.len(),
{
    if before.len() == 0 {
        assert(before + after == after);
    } else {
        assert((before + after).drop_first() == before.drop_first() + after);
        lemma_verdict_concat(before.drop_first(), after);
    }
}

/// A session that is over asks for nothing more: it stays where it is, and
/// refuses whatever comes. Nothing is ever tried again.
pub proof fn lemma_over_sessions_only_refuse(
    config: ConfigView,
    state: StateView,
    events: Seq<EventView>,
)
    requires
        is_over(state),
    ensures
        reached(config, state, events) == state,
        replies(config, state, events).len() == events.len(),
        forall|i: int|
            0 <= i < events.len() ==> #[trigger] replies(config, state, events)[i]
                == ActionView::Refuse,
    decreases events.len(),
{
    if events.len() > 0 {
        lemma_over_sessions_only_refuse(config, state, events.drop_first());
    }
}

/// From the settings on, a session ends in what `build_outcome` says: the same
/// command, or the same failure.
pub proof fn lemma_session_builds(
    config: ConfigView,
    raw: Option<JsonView>,
    runtime: Result<Seq<char>, Seq<char>>,
    working_directory: Seq<char>,
)
    ensures
        verdict(
            replies(
                config,
                StateView::LoadingSettings,
                seq![
                    EventView::SettingsLoaded(raw),
                    EventView::RuntimeLocated(runtime),
                    EventView::WorkingDirectory(working_directory),
                ],
            ),
        ) == Some(session_end(build_outcome(config, raw, working_directory, runtime))),
{
    let first = EventView::SettingsLoaded(raw);
    let second = EventView::RuntimeLocated(runtime);
    let third = EventView::WorkingDirectory(working_directory);
    let events = seq![first, second, third];
    assert(events == seq![first] + (seq![second] + seq![third]));
    assert(seq![third] == seq![third] + Seq::<EventView>::empty());
    let one = transition(config, StateView::LoadingSettings, first);
    let two = transition(config, one.0, second);
    let three = transition(config, two.0, third);
    lemma_replies_step(config, StateView::LoadingSettings, first, seq![second] + seq![third]);
    lemma_replies_step(config, one.0, second, seq![third]);
    lemma_replies_step(config, two.0, third, Seq::empty());
    let tail = replies(config, three.0, Seq::empty());
    assert(tail.len() == 0);
    lemma_verdict_step(three.1, tail);
    lemma_verdict_step(two.1, seq![three.1] + tail);
    lemma_verdict_step(one.1, seq![two.1] + (seq![three.1] + tail));
}

/// A whole session over a package that is current ends in what `build_outcome`
/// says of the settings, the runtime and the working directory.
pub proof fn lemma_current_session_builds(
    config: ConfigView,
    version: Seq<char>,
    raw: Option<JsonView>,
    runtime: Result<Seq<char>, Seq<char>>,
    working_directory: Seq<char>,
)
    ensures
        verdict(
            session_actions(
                config,
                seq![
                    EventView::InstalledVersion(Ok(Some(version))),
                    EventView::LatestVersion(Ok(version)),
                    EventView::SettingsLoaded(raw),
                    EventView::RuntimeLocated(runtime),
                    EventView::WorkingDirectory(working_directory),
                ],
            ),
        ) == Some(session_end(build_outcome(config, raw, working_directory, runtime))),
{
    let first = EventView::InstalledVersion(Ok(Some(version)));
    let second = EventView::LatestVersion(Ok(version));
    let versions = seq![first, second];
    let rest = seq![
        EventView::SettingsLoaded(raw),
        EventView::RuntimeLocated(runtime),
        EventView::WorkingDirectory(working_directory),
    ];
    assert(versions + rest == seq![
        first,
        second,
        EventView::SettingsLoaded(raw),
        EventView::RuntimeLocated(runtime),
        EventView::WorkingDirectory(working_directory),
    ]);
    lemma_versions_lead_on(config, Some(version), version);
    lemma_replies_concat(config, opening(config).0, versions, rest);
    lemma_session_builds(config, raw, runtime, working_directory);
    lemma_verdict_concat(
        replies(config, opening(config).0, versions),
        replies(config, StateView::LoadingSettings, rest),
    );
    lemma_verdict_step(opening(config).1, replies(config, opening(config).0, versions + rest));
}

/// A whole session over a package that is stale or absent, and then installed,
/// ends in what `build_outcome` says of the settings, the runtime and the
/// working directory.
pub proof fn lemma_installing_session_builds(
    config: ConfigView,
    installed: Option<Seq<char>>,
    latest: Seq<char>,
    raw: Option<JsonView>,
    runtime: Result<Seq<char>, Seq<char>>,
    working_directory: Seq<char>,
)
    requires
        installed != Some(latest),
    ensures
        verdict(
            session_actions(
                config,
                seq![
                    EventView::InstalledVersion(Ok(installed)),
                    EventView::LatestVersion(Ok(latest)),
                    EventView::InstallFinished(Ok(())),
                    EventView::SettingsLoaded(raw),
                    EventView::RuntimeLocated(runtime),
                    EventView::WorkingDirectory(working_directory),
                ],
            ),
        ) == Some(session_end(build_outcome(config, raw, working_directory, runtime))),
{
    let first = EventView::InstalledVersion(Ok(installed));
    let second = EventView::LatestVersion(Ok(latest));
    let third = EventView::InstallFinished(Ok(()));
    let versions = seq![first, second];
    let rest = seq![
        EventView::SettingsLoaded(raw),
        EventView::RuntimeLocated(runtime),
        EventView::WorkingDirectory(working_directory),
    ];
    assert(versions + (seq![third] + rest) == seq![
        first,
        second,
        third,
        EventView::SettingsLoaded(raw),
        EventView::RuntimeLocated(runtime),
        EventView::WorkingDirectory(working_directory),
    ]);
    lemma_versions_lead_on(config, installed, latest);
    lemma_replies_concat(config, opening(config).0, versions, seq![third] + rest);
    lemma_replies_step(config, StateView::Installing, third, rest);
    lemma_session_builds(config, raw, runtime, working_directory);
    let settled = replies(config, StateView::LoadingSettings, rest);
    lemma_verdict_step(transition(config, StateView::Installing, third).1, settled);
    lemma_verdict_concat(
        replies(config, opening(config).0, versions),
        replies(config, StateView::Installing, seq![third] + rest),
    );
    lemma_verdict_step(
        opening(config).1,
        replies(config, opening(config).0, versions + (seq![third] + rest)),
    );
}

proof fn lemma_versions_lead_on(
    config: ConfigView,
    installed: Option<Seq<char>>,
    latest: Seq<char>,
)
    ensures
        ({
            let versions = seq![
                EventView::InstalledVersion(Ok(installed)),
                EventView::LatestVersion(Ok(latest)),
            ];
            &&& verdict(replies(config, opening(config).0, versions)) is None
            &&& reached(config, opening(config).0, versions) == if installed == Some(latest) {
                StateView::LoadingSettings
            } else {
                StateView::Installing
            }
        }),
{
    let first = EventView::InstalledVersion(Ok(installed));
    let second = EventView::LatestVersion(Ok(latest));
    let versions = seq![first, second];
    let asked = StateView::QueryingLatest { installed };
    assert(versions == seq![first] + seq![second]);
    assert(seq![second] == seq![second] + Seq::<EventView>::empty());
    assert(versions.drop_first() == seq![second]);
    assert(seq![second].drop_first() == Seq::<EventView>::empty());
    lemma_replies_step(config, opening(config).0, first, seq![second]);
    lemma_replies_step(config, asked, second, Seq::empty());
    let one = transition(config, opening(config).0, first);
    let two = transition(config, asked, second);
    let tail = replies(config, two.0, Seq::empty());
    assert(tail.len() == 0);
    lemma_verdict_step(two.1, tail);
    lemma_verdict_step(one.1, seq![two.1] + tail);
    assert(reached(config, two.0, Seq::empty()) == two.0);
    assert(reached(config, asked, seq![second]) == two.0);
}

/// A failure of the registry, at either question, ends the session with that
/// failure, message unchanged, whatever is reported afterwards.
pub proof fn lemma_registry_failure_is_final(
    config: ConfigView,
    installed: Option<Seq<char>>,
    message: Seq<char>,
    later: Seq<EventView>,
)
    ensures
        verdict(
            session_actions(config, seq![EventView::InstalledVersion(Err(message))] + later),
        ) == Some(Err::<LaunchCommandView, ErrorView>(registry_failure(message))),
        verdict(
            session_actions(
                config,
                seq![
                    EventView::InstalledVersion(Ok(installed)),
                    EventView::LatestVersion(Err(message)),
                ] + later,
            ),
        ) == Some(Err::<LaunchCommandView, ErrorView>(registry_failure(message))),
{
    let start = opening(config).0;
    let asked = StateView::QueryingLatest { installed };
    let first = EventView::InstalledVersion(Ok(installed));
    let first_failed = EventView::InstalledVersion(Err(message));
    let second_failed = EventView::LatestVersion(Err(message));

    lemma_replies_step(config, start, first_failed, later);
    lemma_verdict_step(
        transition(config, start, first_failed).1,
        replies(config, StateView::Failed, later),
    );
    lemma_verdict_step(opening(config).1, replies(config, start, seq![first_failed] + later));

    assert(seq![first, second_failed] + later == seq![first] + (seq![second_failed] + later));
    lemma_replies_step(config, start, first, seq![second_failed] + later);
    lemma_replies_step(config, asked, second_failed, later);
    lemma_verdict_step(
        transition(config, asked, second_failed).1,
        replies(config, StateView::Failed, later),
    );
    lemma_verdict_step(
        transition(config, start, first).1,
        replies(config, asked, seq![second_failed] + later),
    );
    lemma_verdict_step(
        opening(config).1,
        replies(config, start, seq![first, second_failed] + later),
    );
}

/// A failure of the installer ends the session with that failure, message
/// unchanged, whatever is reported afterwards.
pub proof fn lemma_install_failure_is_final(
    config: ConfigView,
    installed: Option<Seq<char>>,
    latest: Seq<char>,
    message: Seq<char>,
    later: Seq<EventView>,
)
    requires
        installed != Some(latest),
    ensures
        verdict(
            session_actions(
                config,
                seq![
                    EventView::InstalledVersion(Ok(installed)),
                    EventView::LatestVersion(Ok(latest)),
                    EventView::InstallFinished(Err(message)),
                ] + later,
            ),
        ) == Some(
            Err::<LaunchCommandView, ErrorView>(
                ErrorView::Resolution(ResolutionErrorView::InstallError(message)),
            ),
        ),
{
    let start = opening(config).0;
    let asked = StateView::QueryingLatest { installed };
    let first = EventView::InstalledVersion(Ok(installed));
    let second = EventView::LatestVersion(Ok(latest));
    let third_failed = EventView::InstallFinished(Err(message));

    assert(seq![first, second, third_failed] + later == seq![first] + (seq![second] + (
        seq![third_failed] + later
    )));
    lemma_replies_step(config, start, first, seq![second] + (seq![third_failed] + later));
    lemma_replies_step(config, asked, second, seq![third_failed] + later);
    lemma_replies_step(config, StateView::Installing, third_failed, later);
    lemma_verdict_step(
        transition(config, StateView::Installing, third_failed).1,
        replies(config, StateView::Failed, later),
    );
    lemma_verdict_step(
        transition(config, asked, second).1,
        replies(config, StateView::Installing, seq![third_failed] + later),
    );
    lemma_verdict_step(
        transition(config, start, first).1,
        replies(config, asked, seq![second] + (seq![third_failed] + later)),
    );
    lemma_verdict_step(
        opening(config).1,
        replies(config, start, seq![first, second, third_failed] + later),
    );
}

} // verus!
