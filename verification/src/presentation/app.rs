//! The decisions of the console: which screen is shown, what a key press
//! does on it, and what is asked of the engine in return.
//!
//! Every step takes the state and an event (a key, an action, or the
//! outcome of work asked for earlier) and gives the next state and the work
//! to do next, as an [`AppEffect`]. The loop that draws the screens, reads
//! the keys and talks to the engine performs that work and hands its outcome
//! back to the matching `finish_` step.
use crate::application::container_dto::{ContainerDto, ContainerLogsDto, ContainerStatsEvent};
use crate::application::error::{app_error_text, AppError};
use crate::application::image_dto::{image_same, ImageDto};
use crate::application::prune::PruneResultDto;
use crate::application::stack_dto::{
    copy_stack_containers, stack_containers_same, StackContainerDto, StackDto,
};
use crate::application::volume_dto::VolumeDto;
use crate::presentation::container_presenter::{filtered_containers_of, ContainerPresenter};
use crate::presentation::exec::{
    exec_outcome_message, exec_outcome_text, shell_row_above, shell_row_below, shell_at,
    ExecCommandConfig, ExecCommandResult, ExecRefreshTarget, ExecShellDialog, PendingExec,
};
use crate::presentation::image_presenter::{filtered_images_of, ImagePresenter};
use crate::presentation::keys::{key_action, map_key_to_action, AppAction, KeyCode, KeyInput};
use crate::presentation::resources::{
    prune_result_message, prune_text, CONTAINER_NOT_FOUND_MESSAGE, DELETE_CONTAINER_MESSAGE,
    DELETE_IMAGE_MESSAGE, DELETE_VOLUME_MESSAGE, FORCE_DELETE_CONTAINER_MESSAGE,
    FORCE_DELETE_IMAGE_MESSAGE, MAIN_MENU_ITEMS, PRUNE_CONTAINERS_MESSAGE, PRUNE_IMAGES_MESSAGE,
    PRUNE_VOLUMES_MESSAGE, REMOVE_ALL_STACK_CONTAINERS_MESSAGE, VOLUME_IN_USE_DELETE_MESSAGE,
};
use crate::presentation::selection::{after_select, moved_down, moved_up, resized};
use crate::presentation::stack_presenter::{filtered_stacks_of, StackPresenter};
use crate::presentation::volume_presenter::{filtered_volumes_of, VolumePresenter};
use crate::presentation::widgets::PopupMessage;
use crate::presentation::app_laws::{
    lemma_resized_fits, lemma_rows_bounded, lemma_stats_keep_shown_rows, lists_consistent,
};
use crate::text::{push_text, string_of, texts};
use vstd::prelude::*;

verus! {

/// The screens of the console.
#[derive(Debug, Clone, Copy, PartialEq, Eq, Structural)]
pub enum Screen {
    MainMenu,
    ContainerList,
    ContainerLogs,
    ContainerDetails,
    VolumeList,
    ImageList,
    ImageDetails,
    StackList,
    StackContainers,
}

/// What a confirmation dialog asks about; the flag of a deletion says
/// whether it is forced.
#[derive(Debug, Clone, Copy, PartialEq, Eq, Structural)]
pub enum ConfirmAction {
    DeleteContainer(bool),
    DeleteVolume,
    DeleteImage(bool),
    PruneContainers,
    PruneVolumes,
    PruneImages,
    RemoveAllStackContainers,
}

/// The question a confirmation dialog asks.
pub open spec fn confirm_text(action: ConfirmAction) -> Seq<char> {
    match action {
        ConfirmAction::DeleteContainer(force) => if force {
            FORCE_DELETE_CONTAINER_MESSAGE@
        } else {
            DELETE_CONTAINER_MESSAGE@
        },
        ConfirmAction::DeleteVolume => DELETE_VOLUME_MESSAGE@,
        ConfirmAction::DeleteImage(force) => if force {
            FORCE_DELETE_IMAGE_MESSAGE@
        } else {
            DELETE_IMAGE_MESSAGE@
        },
        ConfirmAction::PruneContainers => PRUNE_CONTAINERS_MESSAGE@,
        ConfirmAction::PruneVolumes => PRUNE_VOLUMES_MESSAGE@,
        ConfirmAction::PruneImages => PRUNE_IMAGES_MESSAGE@,
        ConfirmAction::RemoveAllStackContainers => REMOVE_ALL_STACK_CONTAINERS_MESSAGE@,
    }
}

pub fn confirm_message(action: ConfirmAction) -> (r: &'static str)
    ensures
        r@ == confirm_text(action),
{
    match action {
        ConfirmAction::DeleteContainer(force) => {
            if force {
                FORCE_DELETE_CONTAINER_MESSAGE
            } else {
                DELETE_CONTAINER_MESSAGE
            }
        },
        ConfirmAction::DeleteVolume => DELETE_VOLUME_MESSAGE,
        ConfirmAction::DeleteImage(force) => {
            if force {
                FORCE_DELETE_IMAGE_MESSAGE
            } else {
                DELETE_IMAGE_MESSAGE
            }
        },
        ConfirmAction::PruneContainers => PRUNE_CONTAINERS_MESSAGE,
        ConfirmAction::PruneVolumes => PRUNE_VOLUMES_MESSAGE,
        ConfirmAction::PruneImages => PRUNE_IMAGES_MESSAGE,
        ConfirmAction::RemoveAllStackContainers => REMOVE_ALL_STACK_CONTAINERS_MESSAGE,
    }
}

/// Which list to load again once some work is done.
#[derive(Debug, Clone, Copy, PartialEq, Eq, Structural)]
pub enum Reload {
    Containers,
    Volumes,
    Images,
    Stacks,
    /// The stacks, keeping the shown stack and showing its containers anew.
    StackContainers,
    /// The stack list screen, with the stacks loaded again.
    ShowStacks,
}

/// What is done to one container.
#[derive(Debug, Clone, Copy, PartialEq, Eq, Structural)]
pub enum ContainerOperation {
    Start,
    Stop,
    Pause,
    Unpause,
    Restart,
    /// Delete, forced when the flag is set.
    Delete(bool),
}

/// What is done to all the given containers of a stack.
#[derive(Debug, Clone, Copy, PartialEq, Eq, Structural)]
pub enum StackOperation {
    StartAll,
    StopAll,
    RemoveAll,
}

/// What a prune removes.
#[derive(Debug, Clone, Copy, PartialEq, Eq, Structural)]
pub enum PruneTarget {
    Containers,
    Volumes,
    Images,
}

/// A change asked of the engine.
#[derive(Debug)]
pub enum Operation {
    Container { op: ContainerOperation, container_id: String },
    DeleteVolume { name: String },
    DeleteImage { image_id: String, force: bool },
    Stack { op: StackOperation, container_ids: Vec<String> },
}

/// The work to do after a step.
#[derive(Debug)]
pub enum AppEffect {
    Nothing,
    Reload(Reload),
    /// Load the last lines of a container's log.
    LoadLogs { container_id: String, container_name: String },
    LoadDetails { container_id: String },
    /// Perform the operation; on success, reload as told.
    Perform { operation: Operation, then: Reload },
    Prune(PruneTarget),
    /// Stop the statistics stream, and start one for these containers when
    /// there are any.
    WatchStats { container_ids: Vec<String> },
    StopStats,
}

/// How many lines of a log are loaded.
pub const LOG_TAIL_LINES: usize = 500;

/// How far one scroll key moves the log.
pub const LOG_SCROLL_STEP: u16 = 10;

/// The state of the console.
pub struct App {
    pub screen: Screen,
    pub previous_screen: Option<Screen>,
    pub should_quit: bool,
    /// The selected row of the main menu.
    pub menu_selected: Option<usize>,
    pub container_presenter: ContainerPresenter,
    pub volume_presenter: VolumePresenter,
    pub image_presenter: ImagePresenter,
    pub stack_presenter: StackPresenter,
    /// The open confirmation dialog, and whether "yes" is selected.
    pub confirm_dialog: Option<(ConfirmAction, bool)>,
    pub popup_message: Option<PopupMessage>,
    pub exec_command_config: ExecCommandConfig,
    pub exec_shell_dialog: Option<ExecShellDialog>,
    pub pending_exec: Option<PendingExec>,
}

// ---------------------------------------------------------------------
// What the presenters show as selected.
// ---------------------------------------------------------------------

pub open spec fn selected_container_of(p: ContainerPresenter) -> Option<ContainerDto> {
    match p.selection.selected {
        Some(i) => if i < p.visible().len() {
            Some(p.visible()[i as int])
        } else {
            None
        },
        None => None,
    }
}

pub open spec fn selected_volume_of(p: VolumePresenter) -> Option<VolumeDto> {
    match p.selection.selected {
        Some(i) => if i < p.visible().len() {
            Some(p.visible()[i as int])
        } else {
            None
        },
        None => None,
    }
}

pub open spec fn selected_image_of(p: ImagePresenter) -> Option<ImageDto> {
    match p.selection.selected {
        Some(i) => if i < p.visible().len() {
            Some(p.visible()[i as int])
        } else {
            None
        },
        None => None,
    }
}

pub open spec fn selected_stack_of(p: StackPresenter) -> Option<StackDto> {
    match p.selection.selected {
        Some(i) => if i < p.visible().len() {
            Some(p.visible()[i as int])
        } else {
            None
        },
        None => None,
    }
}

pub open spec fn selected_stack_container_of(p: StackPresenter) -> Option<StackContainerDto> {
    match p.container_selection.selected {
        Some(i) => if i < p.stack_containers@.len() {
            Some(p.stack_containers@[i as int])
        } else {
            None
        },
        None => None,
    }
}

/// The identifiers of the containers, in order.
pub open spec fn ids_of(cs: Seq<StackContainerDto>) -> Seq<Seq<char>> {
    cs.map_values(|c: StackContainerDto| c.id@)
}

/// The identifiers of the containers that can be started.
pub open spec fn startable_ids(cs: Seq<StackContainerDto>) -> Seq<Seq<char>> {
    ids_of(cs.filter(|c: StackContainerDto| c.can_start))
}

/// The identifiers of the containers that can be stopped.
pub open spec fn stoppable_ids(cs: Seq<StackContainerDto>) -> Seq<Seq<char>> {
    ids_of(cs.filter(|c: StackContainerDto| c.can_stop))
}

/// The identifiers of the listed containers whose state is active.
pub open spec fn active_ids(cs: Seq<ContainerDto>) -> Seq<Seq<char>> {
    cs.filter(|c: ContainerDto| c.state.active()).map_values(
        |c: ContainerDto| c.id@,
    )
}

// ---------------------------------------------------------------------
// The shapes of the effects.
// ---------------------------------------------------------------------

/// The effect operates on one container and then reloads as told.
pub open spec fn container_effect(
    r: AppEffect,
    op: ContainerOperation,
    id: Seq<char>,
    then: Reload,
) -> bool {
    r matches AppEffect::Perform {
        operation: Operation::Container { op: o, container_id },
        then: t,
    } && o == op && container_id@ == id && t == then
}

/// The effect operates on the given containers of a stack and then
/// reloads as told.
pub open spec fn stack_effect(
    r: AppEffect,
    op: StackOperation,
    ids: Seq<Seq<char>>,
    then: Reload,
) -> bool {
    r matches AppEffect::Perform {
        operation: Operation::Stack { op: o, container_ids },
        then: t,
    } && o == op && texts(container_ids@) == ids && t == then
}

/// `b` is `a` with an error message popped up.
pub open spec fn shows_error(a: App, b: App, text: Seq<char>) -> bool {
    &&& b == (App { popup_message: b.popup_message, ..a })
    &&& b.popup_message matches Some(PopupMessage::Error(m)) && m@ == text
}

/// `b` is `a` with an information message popped up.
pub open spec fn shows_info(a: App, b: App, text: Seq<char>) -> bool {
    &&& b == (App { popup_message: b.popup_message, ..a })
    &&& b.popup_message matches Some(PopupMessage::Info(m)) && m@ == text
}

// ---------------------------------------------------------------------
// The steps, one per screen.
// ---------------------------------------------------------------------

/// The menu row above, wrapping to the last.
pub open spec fn menu_up(selected: Option<usize>) -> Option<usize> {
    match selected {
        Some(s) => Some(
            if s == 0 {
                4usize
            } else {
                (s - 1) as usize
            },
        ),
        None => None,
    }
}

/// The menu row below, wrapping to the first.
pub open spec fn menu_down(selected: Option<usize>) -> Option<usize> {
    match selected {
        Some(s) => Some(
            if s >= 4 {
                0usize
            } else {
                (s + 1) as usize
            },
        ),
        None => None,
    }
}

/// The main menu: move, open the chosen list (and load it), or quit.
pub open spec fn main_menu_step(a: App, b: App, action: AppAction, r: AppEffect) -> bool {
    match action {
        AppAction::Quit => b == (App { should_quit: true, ..a }) && r == AppEffect::Nothing,
        AppAction::NavigateUp => b == (App { menu_selected: menu_up(a.menu_selected), ..a })
            && r == AppEffect::Nothing,
        AppAction::NavigateDown => b == (App { menu_selected: menu_down(a.menu_selected), ..a })
            && r == AppEffect::Nothing,
        AppAction::Select => if a.menu_selected == Some(0usize) {
            b == (App { screen: Screen::ContainerList, ..a }) && r == AppEffect::Reload(
                Reload::Containers,
            )
        } else if a.menu_selected == Some(1usize) {
            b == (App { screen: Screen::VolumeList, ..a }) && r == AppEffect::Reload(
                Reload::Volumes,
            )
        } else if a.menu_selected == Some(2usize) {
            b == (App { screen: Screen::ImageList, ..a }) && r == AppEffect::Reload(Reload::Images)
        } else if a.menu_selected == Some(3usize) {
            b == (App { screen: Screen::StackList, ..a }) && r == AppEffect::Reload(Reload::Stacks)
        } else if a.menu_selected == Some(4usize) {
            b == (App { should_quit: true, ..a }) && r == AppEffect::Nothing
        } else {
            b == a && r == AppEffect::Nothing
        },
        _ => b == a && r == AppEffect::Nothing,
    }
}

/// The exec dialog opens on the selected container of the container list
/// or of the stack container list; elsewhere, or with nothing selected,
/// nothing happens.
pub open spec fn exec_target_of(a: App) -> Option<(Seq<char>, ExecRefreshTarget)> {
    if a.screen == Screen::ContainerList {
        match selected_container_of(a.container_presenter) {
            Some(c) => Some((c.id@, ExecRefreshTarget::Containers)),
            None => None,
        }
    } else if a.screen == Screen::StackContainers {
        match selected_stack_container_of(a.stack_presenter) {
            Some(c) => Some((c.id@, ExecRefreshTarget::StackContainers)),
            None => None,
        }
    } else {
        None
    }
}

pub open spec fn exec_dialog_opened(a: App, b: App) -> bool {
    match exec_target_of(a) {
        Some((id, target)) => {
            &&& b == (App { exec_shell_dialog: b.exec_shell_dialog, ..a })
            &&& b.exec_shell_dialog matches Some(d) && d.container_id@ == id && d.refresh_target
                == target && d.selected == Some(0usize)
        },
        None => b == a,
    }
}

/// The container list.
pub open spec fn container_list_step(a: App, b: App, action: AppAction, r: AppEffect) -> bool {
    let p = a.container_presenter;
    let sel = selected_container_of(p);
    match action {
        AppAction::Quit => b == (App { should_quit: true, ..a }) && r == AppEffect::Nothing,
        AppAction::Back => {
            &&& b == (App {
                screen: Screen::MainMenu,
                container_presenter: b.container_presenter,
                ..a
            })
            &&& b.container_presenter == (ContainerPresenter {
                containers: b.container_presenter.containers,
                ..p
            })
            &&& b.container_presenter.containers@.len() == p.containers@.len()
            &&& forall|k: int|
                0 <= k < p.containers@.len() ==> #[trigger] b.container_presenter.containers@[k]
                    == (ContainerDto { runtime_stats: None, ..p.containers@[k] })
            &&& r == AppEffect::StopStats
        },
        AppAction::NavigateUp => b == (App {
            container_presenter: ContainerPresenter { selection: moved_up(p.selection), ..p },
            ..a
        }) && r == AppEffect::Nothing,
        AppAction::NavigateDown => b == (App {
            container_presenter: ContainerPresenter { selection: moved_down(p.selection), ..p },
            ..a
        }) && r == AppEffect::Nothing,
        AppAction::ViewLogs => b == a && match sel {
            Some(c) => r matches AppEffect::LoadLogs { container_id, container_name }
                && container_id@ == c.id@ && container_name@ == c.name@,
            None => r == AppEffect::Nothing,
        },
        AppAction::ViewDetails => b == a && match sel {
            Some(c) => r matches AppEffect::LoadDetails { container_id } && container_id@
                == c.id@,
            None => r == AppEffect::Nothing,
        },
        AppAction::StartStop => b == a && match sel {
            Some(c) => if c.can_stop {
                container_effect(r, ContainerOperation::Stop, c.id@, Reload::Containers)
            } else if c.can_start {
                container_effect(r, ContainerOperation::Start, c.id@, Reload::Containers)
            } else {
                r == AppEffect::Nothing
            },
            None => r == AppEffect::Nothing,
        },
        AppAction::Delete => r == AppEffect::Nothing && match sel {
            Some(c) => b == (App {
                confirm_dialog: Some((ConfirmAction::DeleteContainer(c.can_stop), true)),
                ..a
            }),
            None => b == a,
        },
        AppAction::PauseUnpause => b == a && match sel {
            Some(c) => if c.can_pause {
                container_effect(r, ContainerOperation::Pause, c.id@, Reload::Containers)
            } else if c.can_unpause {
                container_effect(r, ContainerOperation::Unpause, c.id@, Reload::Containers)
            } else {
                r == AppEffect::Nothing
            },
            None => r == AppEffect::Nothing,
        },
        AppAction::Restart => b == a && match sel {
            Some(c) => if c.can_restart {
                container_effect(r, ContainerOperation::Restart, c.id@, Reload::Containers)
            } else {
                r == AppEffect::Nothing
            },
            None => r == AppEffect::Nothing,
        },
        AppAction::Refresh => b == a && r == AppEffect::Reload(Reload::Containers),
        AppAction::Prune => b == (App {
            confirm_dialog: Some((ConfirmAction::PruneContainers, true)),
            ..a
        }) && r == AppEffect::Nothing,
        AppAction::ActivateFilter => {
            &&& b == (App { container_presenter: b.container_presenter, ..a })
            &&& b.container_presenter == (ContainerPresenter {
                filter: b.container_presenter.filter,
                ..p
            })
            &&& b.container_presenter.filter.active
            &&& b.container_presenter.filter.value@ == p.filter.value@
            &&& r == AppEffect::Nothing
        },
        AppAction::Exec => exec_dialog_opened(a, b) && r == AppEffect::Nothing,
        _ => b == a && r == AppEffect::Nothing,
    }
}

/// The log screen: back to the list (forgetting the log), or scroll.
pub open spec fn container_logs_step(a: App, b: App, action: AppAction, r: AppEffect) -> bool {
    let p = a.container_presenter;
    r == AppEffect::Nothing && match action {
        AppAction::Quit | AppAction::Back => b == (App {
            screen: Screen::ContainerList,
            container_presenter: ContainerPresenter { logs: None, logs_scroll: 0, ..p },
            ..a
        }),
        AppAction::ScrollUp => b == (App {
            container_presenter: ContainerPresenter {
                logs_scroll: if p.logs_scroll >= LOG_SCROLL_STEP {
                    (p.logs_scroll - LOG_SCROLL_STEP) as u16
                } else {
                    0u16
                },
                ..p
            },
            ..a
        }),
        AppAction::ScrollDown => b == (App {
            container_presenter: ContainerPresenter {
                logs_scroll: if p.logs_scroll + LOG_SCROLL_STEP <= u16::MAX {
                    (p.logs_scroll + LOG_SCROLL_STEP) as u16
                } else {
                    u16::MAX
                },
                ..p
            },
            ..a
        }),
        _ => b == a,
    }
}

/// The detail screens: back to their list, forgetting the details.
pub open spec fn details_step(a: App, b: App, action: AppAction, r: AppEffect) -> bool {
    r == AppEffect::Nothing && match action {
        AppAction::Quit | AppAction::Back => if a.screen == Screen::ContainerDetails {
            b == (App {
                screen: Screen::ContainerList,
                container_presenter: ContainerPresenter {
                    selected_container: None,
                    ..a.container_presenter
                },
                ..a
            })
        } else if a.screen == Screen::ImageDetails {
            b == (App {
                screen: Screen::ImageList,
                image_presenter: ImagePresenter { selected_image: None, ..a.image_presenter },
                ..a
            })
        } else {
            b == a
        },
        _ => b == a,
    }
}

/// The volume list. A volume in use is not offered for deletion: an error
/// message says why.
pub open spec fn volume_list_step(a: App, b: App, action: AppAction, r: AppEffect) -> bool {
    let p = a.volume_presenter;
    match action {
        AppAction::Quit => b == (App { should_quit: true, ..a }) && r == AppEffect::Nothing,
        AppAction::Back => b == (App { screen: Screen::MainMenu, ..a }) && r == AppEffect::Nothing,
        AppAction::NavigateUp => b == (App {
            volume_presenter: VolumePresenter { selection: moved_up(p.selection), ..p },
            ..a
        }) && r == AppEffect::Nothing,
        AppAction::NavigateDown => b == (App {
            volume_presenter: VolumePresenter { selection: moved_down(p.selection), ..p },
            ..a
        }) && r == AppEffect::Nothing,
        AppAction::Delete => r == AppEffect::Nothing && match selected_volume_of(p) {
            Some(v) => if v.can_delete {
                b == (App { confirm_dialog: Some((ConfirmAction::DeleteVolume, true)), ..a })
            } else {
                shows_error(a, b, VOLUME_IN_USE_DELETE_MESSAGE@)
            },
            None => b == a,
        },
        AppAction::Refresh => b == a && r == AppEffect::Reload(Reload::Volumes),
        AppAction::Prune => b == (App {
            confirm_dialog: Some((ConfirmAction::PruneVolumes, true)),
            ..a
        }) && r == AppEffect::Nothing,
        AppAction::ActivateFilter => {
            &&& b == (App { volume_presenter: b.volume_presenter, ..a })
            &&& b.volume_presenter == (VolumePresenter { filter: b.volume_presenter.filter, ..p })
            &&& b.volume_presenter.filter.active
            &&& b.volume_presenter.filter.value@ == p.filter.value@
            &&& r == AppEffect::Nothing
        },
        _ => b == a && r == AppEffect::Nothing,
    }
}

/// The image list.
pub open spec fn image_list_step(a: App, b: App, action: AppAction, r: AppEffect) -> bool {
    let p = a.image_presenter;
    match action {
        AppAction::Quit => b == (App { should_quit: true, ..a }) && r == AppEffect::Nothing,
        AppAction::Back => b == (App { screen: Screen::MainMenu, ..a }) && r == AppEffect::Nothing,
        AppAction::NavigateUp => b == (App {
            image_presenter: ImagePresenter { selection: moved_up(p.selection), ..p },
            ..a
        }) && r == AppEffect::Nothing,
        AppAction::NavigateDown => b == (App {
            image_presenter: ImagePresenter { selection: moved_down(p.selection), ..p },
            ..a
        }) && r == AppEffect::Nothing,
        AppAction::ViewDetails => r == AppEffect::Nothing && match selected_image_of(p) {
            Some(i) => {
                &&& b == (App {
                    screen: Screen::ImageDetails,
                    image_presenter: ImagePresenter {
                        selected_image: b.image_presenter.selected_image,
                        ..p
                    },
                    ..a
                })
                &&& b.image_presenter.selected_image matches Some(d) && image_same(d, i)
            },
            None => b == a,
        },
        AppAction::Delete => r == AppEffect::Nothing && match selected_image_of(p) {
            Some(i) => b == (App {
                confirm_dialog: Some((ConfirmAction::DeleteImage(i.in_use), true)),
                ..a
            }),
            None => b == a,
        },
        AppAction::Refresh => b == a && r == AppEffect::Reload(Reload::Images),
        AppAction::Prune => b == (App {
            confirm_dialog: Some((ConfirmAction::PruneImages, true)),
            ..a
        }) && r == AppEffect::Nothing,
        AppAction::ActivateFilter => {
            &&& b == (App { image_presenter: b.image_presenter, ..a })
            &&& b.image_presenter == (ImagePresenter { filter: b.image_presenter.filter, ..p })
            &&& b.image_presenter.filter.active
            &&& b.image_presenter.filter.value@ == p.filter.value@
            &&& r == AppEffect::Nothing
        },
        _ => b == a && r == AppEffect::Nothing,
    }
}

/// The stack presenter shows the given containers (copies of them) with
/// their selection brought into range.
pub open spec fn shows_stack_containers(
    p: StackPresenter,
    q: StackPresenter,
    cs: Seq<StackContainerDto>,
) -> bool {
    &&& q == (StackPresenter {
        stack_containers: q.stack_containers,
        container_selection: resized(p.container_selection, cs.len()),
        ..p
    })
    &&& stack_containers_same(q.stack_containers@, cs)
}

/// The stack list. Starting or stopping a stack asks only for its
/// containers that can be started (or stopped), and nothing when there
/// are none.
pub open spec fn stack_list_step(a: App, b: App, action: AppAction, r: AppEffect) -> bool {
    let p = a.stack_presenter;
    match action {
        AppAction::Quit => b == (App { should_quit: true, ..a }) && r == AppEffect::Nothing,
        AppAction::Back => b == (App { screen: Screen::MainMenu, ..a }) && r == AppEffect::Nothing,
        AppAction::NavigateUp => b == (App {
            stack_presenter: StackPresenter { selection: moved_up(p.selection), ..p },
            ..a
        }) && r == AppEffect::Nothing,
        AppAction::NavigateDown => b == (App {
            stack_presenter: StackPresenter { selection: moved_down(p.selection), ..p },
            ..a
        }) && r == AppEffect::Nothing,
        AppAction::Select => r == AppEffect::Nothing && match selected_stack_of(p) {
            Some(s) => b == (App {
                screen: Screen::StackContainers,
                stack_presenter: b.stack_presenter,
                ..a
            }) && shows_stack_containers(p, b.stack_presenter, s.containers@),
            None => b == a,
        },
        AppAction::StartStop => b == a && match selected_stack_of(p) {
            Some(s) => if startable_ids(s.containers@).len() > 0 {
                stack_effect(
                    r,
                    StackOperation::StartAll,
                    startable_ids(s.containers@),
                    Reload::Stacks,
                )
            } else {
                r == AppEffect::Nothing
            },
            None => r == AppEffect::Nothing,
        },
        AppAction::StopAll => b == a && match selected_stack_of(p) {
            Some(s) => if stoppable_ids(s.containers@).len() > 0 {
                stack_effect(
                    r,
                    StackOperation::StopAll,
                    stoppable_ids(s.containers@),
                    Reload::Stacks,
                )
            } else {
                r == AppEffect::Nothing
            },
            None => r == AppEffect::Nothing,
        },
        AppAction::Refresh => b == a && r == AppEffect::Reload(Reload::Stacks),
        AppAction::ActivateFilter => {
            &&& b == (App { stack_presenter: b.stack_presenter, ..a })
            &&& b.stack_presenter == (StackPresenter { filter: b.stack_presenter.filter, ..p })
            &&& b.stack_presenter.filter.active
            &&& b.stack_presenter.filter.value@ == p.filter.value@
            &&& r == AppEffect::Nothing
        },
        _ => b == a && r == AppEffect::Nothing,
    }
}

/// The containers of one stack.
pub open spec fn stack_containers_step(a: App, b: App, action: AppAction, r: AppEffect) -> bool {
    let p = a.stack_presenter;
    match action {
        AppAction::Quit => b == (App { should_quit: true, ..a }) && r == AppEffect::Nothing,
        AppAction::Back => b == (App {
            screen: Screen::StackList,
            stack_presenter: b.stack_presenter,
            ..a
        }) && shows_stack_containers(p, b.stack_presenter, Seq::empty()) && r
            == AppEffect::Reload(Reload::Stacks),
        AppAction::NavigateUp => b == (App {
            stack_presenter: StackPresenter {
                container_selection: moved_up(p.container_selection),
                ..p
            },
            ..a
        }) && r == AppEffect::Nothing,
        AppAction::NavigateDown => b == (App {
            stack_presenter: StackPresenter {
                container_selection: moved_down(p.container_selection),
                ..p
            },
            ..a
        }) && r == AppEffect::Nothing,
        AppAction::StartStop => b == a && match selected_stack_container_of(p) {
            Some(c) => if c.can_stop {
                container_effect(r, ContainerOperation::Stop, c.id@, Reload::StackContainers)
            } else if c.can_start {
                container_effect(r, ContainerOperation::Start, c.id@, Reload::StackContainers)
            } else {
                r == AppEffect::Nothing
            },
            None => r == AppEffect::Nothing,
        },
        AppAction::Delete => r == AppEffect::Nothing && match selected_stack_container_of(p) {
            Some(c) => b == (App {
                confirm_dialog: Some((ConfirmAction::DeleteContainer(c.can_stop), true)),
                ..a
            }),
            None => b == a,
        },
        AppAction::StopAll => b == a && match selected_stack_of(p) {
            Some(s) => if stoppable_ids(s.containers@).len() > 0 {
                stack_effect(
                    r,
                    StackOperation::StopAll,
                    stoppable_ids(s.containers@),
                    Reload::StackContainers,
                )
            } else {
                r == AppEffect::Nothing
            },
            None => r == AppEffect::Nothing,
        },
        AppAction::StartAll => b == a && match selected_stack_of(p) {
            Some(s) => if startable_ids(s.containers@).len() > 0 {
                stack_effect(
                    r,
                    StackOperation::StartAll,
                    startable_ids(s.containers@),
                    Reload::StackContainers,
                )
            } else {
                r == AppEffect::Nothing
            },
            None => r == AppEffect::Nothing,
        },
        AppAction::RemoveAll => r == AppEffect::Nothing && if p.stack_containers@.len() > 0 {
            b == (App {
                confirm_dialog: Some((ConfirmAction::RemoveAllStackContainers, true)),
                ..a
            })
        } else {
            b == a
        },
        AppAction::Refresh => b == a && r == AppEffect::Reload(Reload::StackContainers),
        AppAction::Exec => exec_dialog_opened(a, b) && r == AppEffect::Nothing,
        _ => b == a && r == AppEffect::Nothing,
    }
}

/// The screen's own step.
pub open spec fn screen_step(a: App, b: App, action: AppAction, r: AppEffect) -> bool {
    match a.screen {
        Screen::MainMenu => main_menu_step(a, b, action, r),
        Screen::ContainerList => container_list_step(a, b, action, r),
        Screen::ContainerLogs => container_logs_step(a, b, action, r),
        Screen::ContainerDetails => details_step(a, b, action, r),
        Screen::VolumeList => volume_list_step(a, b, action, r),
        Screen::ImageList => image_list_step(a, b, action, r),
        Screen::ImageDetails => details_step(a, b, action, r),
        Screen::StackList => stack_list_step(a, b, action, r),
        Screen::StackContainers => stack_containers_step(a, b, action, r),
    }
}

/// The work a confirmed dialog asks for. A deletion concerns the selected
/// row of the screen the dialog was opened on; nothing is asked when no
/// row is selected.
pub open spec fn confirmed_effect(a: App, action: ConfirmAction, r: AppEffect) -> bool {
    match action {
        ConfirmAction::DeleteContainer(force) => if a.screen == Screen::StackContainers {
            match selected_stack_container_of(a.stack_presenter) {
                Some(c) => container_effect(
                    r,
                    ContainerOperation::Delete(force),
                    c.id@,
                    Reload::StackContainers,
                ),
                None => r == AppEffect::Nothing,
            }
        } else {
            match selected_container_of(a.container_presenter) {
                Some(c) => container_effect(
                    r,
                    ContainerOperation::Delete(force),
                    c.id@,
                    Reload::Containers,
                ),
                None => r == AppEffect::Nothing,
            }
        },
        ConfirmAction::DeleteVolume => match selected_volume_of(a.volume_presenter) {
            Some(v) => r matches AppEffect::Perform {
                operation: Operation::DeleteVolume { name },
                then: Reload::Volumes,
            } && name@ == v.name@,
            None => r == AppEffect::Nothing,
        },
        ConfirmAction::DeleteImage(force) => match selected_image_of(a.image_presenter) {
            Some(i) => r matches AppEffect::Perform {
                operation: Operation::DeleteImage { image_id, force: f },
                then: Reload::Images,
            } && image_id@ == i.id@ && f == force,
            None => r == AppEffect::Nothing,
        },
        ConfirmAction::PruneContainers => r == AppEffect::Prune(PruneTarget::Containers),
        ConfirmAction::PruneVolumes => r == AppEffect::Prune(PruneTarget::Volumes),
        ConfirmAction::PruneImages => r == AppEffect::Prune(PruneTarget::Images),
        ConfirmAction::RemoveAllStackContainers => stack_effect(
            r,
            StackOperation::RemoveAll,
            ids_of(a.stack_presenter.stack_containers@),
            Reload::ShowStacks,
        ),
    }
}

/// A key press while a confirmation dialog is open: the arrows switch
/// between yes and no, Enter closes the dialog (and does the work on yes),
/// Esc and `q` close it.
pub open spec fn confirm_step(a: App, b: App, action: AppAction, r: AppEffect) -> bool {
    let (ca, yes) = a.confirm_dialog->0;
    match action {
        AppAction::NavigateUp | AppAction::NavigateDown => b == (App {
            confirm_dialog: Some((ca, !yes)),
            ..a
        }) && r == AppEffect::Nothing,
        AppAction::Select => b == (App { confirm_dialog: None, ..a }) && if yes {
            confirmed_effect(a, ca, r)
        } else {
            r == AppEffect::Nothing
        },
        AppAction::Back | AppAction::Quit => b == (App { confirm_dialog: None, ..a }) && r
            == AppEffect::Nothing,
        _ => b == a && r == AppEffect::Nothing,
    }
}

/// A key press while the shell dialog is open: the arrows move, Enter
/// closes it and makes its request pending, Esc and `q` close it.
pub open spec fn exec_dialog_step(a: App, b: App, action: AppAction, r: AppEffect) -> bool {
    let d = a.exec_shell_dialog->0;
    r == AppEffect::Nothing && match action {
        AppAction::NavigateUp => b == (App {
            exec_shell_dialog: Some(ExecShellDialog { selected: shell_row_above(d.selected), ..d }),
            ..a
        }),
        AppAction::NavigateDown => b == (App {
            exec_shell_dialog: Some(ExecShellDialog { selected: shell_row_below(d.selected), ..d }),
            ..a
        }),
        AppAction::Select => {
            &&& b == (App { exec_shell_dialog: None, pending_exec: b.pending_exec, ..a })
            &&& b.pending_exec matches Some(p) && p.container_id@ == d.container_id@ && p.shell
                == shell_at(
                match d.selected {
                    Some(i) => i,
                    None => 0,
                },
            ) && p.refresh_target == d.refresh_target
        },
        AppAction::Back | AppAction::Quit => b == (App { exec_shell_dialog: None, ..a }),
        _ => b == a,
    }
}

/// One action: a pop-up message swallows it and goes away; an open
/// dialog takes it; otherwise the screen does.
pub open spec fn action_step(a: App, b: App, action: AppAction, r: AppEffect) -> bool {
    if a.popup_message is Some {
        b == (App { popup_message: None, ..a }) && r == AppEffect::Nothing
    } else if a.confirm_dialog is Some {
        confirm_step(a, b, action, r)
    } else if a.exec_shell_dialog is Some {
        exec_dialog_step(a, b, action, r)
    } else {
        screen_step(a, b, action, r)
    }
}


// ---------------------------------------------------------------------
// Lists of identifiers.
// ---------------------------------------------------------------------

proof fn lemma_ids_push(s: Seq<StackContainerDto>, c: StackContainerDto)
    ensures
        ids_of(s.push(c)) == ids_of(s).push(c.id@),
{
    assert(ids_of(s.push(c)) =~= ids_of(s).push(c.id@));
}

/// The identifiers of all the containers.
pub fn container_ids(cs: &Vec<StackContainerDto>) -> (r: Vec<String>)
    ensures
        texts(r@) == ids_of(cs@),
{
    let mut out: Vec<String> = Vec::new();
    let mut i: usize = 0;
    while i < cs.len()
        invariant
            i <= cs@.len(),
            texts(out@) == ids_of(cs@.subrange(0, i as int)),
        decreases cs@.len() - i,
    {
        let ghost before = out@;
        out.push(string_of(cs[i].id.as_str()));
        proof {
            assert(texts(out@) =~= texts(before).push(cs@[i as int].id@));
            assert(cs@.subrange(0, i + 1) =~= cs@.subrange(0, i as int).push(cs@[i as int]));
            lemma_ids_push(cs@.subrange(0, i as int), cs@[i as int]);
        }
        i = i + 1;
    }
    assert(cs@.subrange(0, i as int) =~= cs@);
    out
}

/// The identifiers of the containers that can be started (`start`) or
/// stopped (otherwise).
pub fn ids_where(cs: &Vec<StackContainerDto>, start: bool) -> (r: Vec<String>)
    ensures
        texts(r@) == (if start {
            startable_ids(cs@)
        } else {
            stoppable_ids(cs@)
        }),
{
    let ghost pred = if start {
        |c: StackContainerDto| c.can_start
    } else {
        |c: StackContainerDto| c.can_stop
    };
    let mut out: Vec<String> = Vec::new();
    let mut i: usize = 0;
    while i < cs.len()
        invariant
            i <= cs@.len(),
            pred == (if start {
                |c: StackContainerDto| c.can_start
            } else {
                |c: StackContainerDto| c.can_stop
            }),
            texts(out@) == ids_of(cs@.subrange(0, i as int).filter(pred)),
        decreases cs@.len() - i,
    {
        let keep = if start {
            cs[i].can_start
        } else {
            cs[i].can_stop
        };
        let ghost before = out@;
        proof {
            reveal_with_fuel(Seq::filter, 1);
            assert(cs@.subrange(0, i + 1).drop_last() =~= cs@.subrange(0, i as int));
            assert(keep == pred(cs@[i as int]));
        }
        if keep {
            out.push(string_of(cs[i].id.as_str()));
            proof {
                assert(texts(out@) =~= texts(before).push(cs@[i as int].id@));
                lemma_ids_push(cs@.subrange(0, i as int).filter(pred), cs@[i as int]);
            }
        }
        i = i + 1;
    }
    assert(cs@.subrange(0, i as int) =~= cs@);
    out
}

/// The identifiers of the listed containers whose state is active.
pub fn active_container_ids(cs: &Vec<ContainerDto>) -> (r: Vec<String>)
    ensures
        texts(r@) == active_ids(cs@),
{
    let ghost pred = |c: ContainerDto| c.state.active();
    let ghost idf = |c: ContainerDto| c.id@;
    let mut out: Vec<String> = Vec::new();
    let mut i: usize = 0;
    while i < cs.len()
        invariant
            i <= cs@.len(),
            pred == (|c: ContainerDto| c.state.active()),
            idf == (|c: ContainerDto| c.id@),
            texts(out@) == cs@.subrange(0, i as int).filter(pred).map_values(idf),
        decreases cs@.len() - i,
    {
        let keep = cs[i].state.is_active();
        let ghost before = out@;
        proof {
            reveal_with_fuel(Seq::filter, 1);
            assert(cs@.subrange(0, i + 1).drop_last() =~= cs@.subrange(0, i as int));
        }
        if keep {
            out.push(string_of(cs[i].id.as_str()));
            proof {
                let f = cs@.subrange(0, i as int).filter(pred);
                assert(texts(out@) =~= texts(before).push(cs@[i as int].id@));
                assert(f.push(cs@[i as int]).map_values(idf) =~= f.map_values(idf).push(
                    cs@[i as int].id@,
                ));
            }
        }
        i = i + 1;
    }
    assert(cs@.subrange(0, i as int) =~= cs@);
    out
}

/// The list to reload once a shell opened from a screen exits.
pub open spec fn exec_reload_of(target: ExecRefreshTarget) -> Reload {
    match target {
        ExecRefreshTarget::Containers => Reload::Containers,
        ExecRefreshTarget::StackContainers => Reload::StackContainers,
    }
}

pub fn exec_reload(target: ExecRefreshTarget) -> (r: Reload)
    ensures
        r == exec_reload_of(target),
{
    match target {
        ExecRefreshTarget::Containers => Reload::Containers,
        ExecRefreshTarget::StackContainers => Reload::StackContainers,
    }
}

impl App {
    /// The console at start: the main menu with its first row selected,
    /// empty lists, no dialog.
    pub fn new(exec_command_config: ExecCommandConfig) -> (r: App)
        ensures
            r.screen == Screen::MainMenu,
            r.previous_screen is None,
            !r.should_quit,
            r.menu_selected == Some(0usize),
            r.container_presenter.containers@.len() == 0,
            r.container_presenter.selection.selected is None,
            r.container_presenter.logs is None,
            r.container_presenter.selected_container is None,
            !r.container_presenter.filter.active,
            r.container_presenter.filter.value@.len() == 0,
            r.volume_presenter.volumes@.len() == 0,
            !r.volume_presenter.filter.active,
            r.image_presenter.images@.len() == 0,
            r.image_presenter.selected_image is None,
            !r.image_presenter.filter.active,
            r.stack_presenter.stacks@.len() == 0,
            r.stack_presenter.stack_containers@.len() == 0,
            !r.stack_presenter.filter.active,
            r.confirm_dialog is None,
            r.popup_message is None,
            r.exec_command_config == exec_command_config,
            r.exec_shell_dialog is None,
            r.pending_exec is None,
            lists_consistent(r),
    {
        App {
            screen: Screen::MainMenu,
            previous_screen: None,
            should_quit: false,
            menu_selected: Some(0),
            container_presenter: ContainerPresenter::new(),
            volume_presenter: VolumePresenter::new(),
            image_presenter: ImagePresenter::new(),
            stack_presenter: StackPresenter::new(),
            confirm_dialog: None,
            popup_message: None,
            exec_command_config,
            exec_shell_dialog: None,
            pending_exec: None,
        }
    }

    fn show_error(&mut self, message: String)
        ensures
            shows_error(*old(self), *final(self), message@),
    {
        self.popup_message = Some(PopupMessage::Error(message));
    }

    pub fn handle_main_menu_action(&mut self, action: AppAction) -> (r: AppEffect)
        ensures
            main_menu_step(*old(self), *final(self), action, r),
    {
        match action {
            AppAction::Quit => {
                self.should_quit = true;
                AppEffect::Nothing
            },
            AppAction::NavigateUp => {
                if let Some(selected) = self.menu_selected {
                    let last_index = MAIN_MENU_ITEMS.len() - 1;
                    let new_selected = if selected == 0 {
                        last_index
                    } else {
                        selected - 1
                    };
                    self.menu_selected = Some(new_selected);
                }
                AppEffect::Nothing
            },
            AppAction::NavigateDown => {
                if let Some(selected) = self.menu_selected {
                    let last_index = MAIN_MENU_ITEMS.len() - 1;
                    let new_selected = if selected >= last_index {
                        0
                    } else {
                        selected + 1
                    };
                    self.menu_selected = Some(new_selected);
                }
                AppEffect::Nothing
            },
            AppAction::Select => {
                if let Some(selected) = self.menu_selected {
                    if selected == 0 {
                        self.screen = Screen::ContainerList;
                        AppEffect::Reload(Reload::Containers)
                    } else if selected == 1 {
                        self.screen = Screen::VolumeList;
                        AppEffect::Reload(Reload::Volumes)
                    } else if selected == 2 {
                        self.screen = Screen::ImageList;
                        AppEffect::Reload(Reload::Images)
                    } else if selected == 3 {
                        self.screen = Screen::StackList;
                        AppEffect::Reload(Reload::Stacks)
                    } else if selected == 4 {
                        self.should_quit = true;
                        AppEffect::Nothing
                    } else {
                        AppEffect::Nothing
                    }
                } else {
                    AppEffect::Nothing
                }
            },
            _ => AppEffect::Nothing,
        }
    }

    /// The container to open a shell in, and the list to reload afterwards.
    pub fn selected_exec_target(&self) -> (r: Option<(String, ExecRefreshTarget)>)
        ensures
            match exec_target_of(*self) {
                Some((id, target)) => r matches Some((i, t)) && i@ == id && t == target,
                None => r is None,
            },
    {
        match self.screen {
            Screen::ContainerList => match self.container_presenter.selected_container() {
                Some(c) => Some((string_of(c.id.as_str()), ExecRefreshTarget::Containers)),
                None => None,
            },
            Screen::StackContainers => match self.stack_presenter.selected_stack_container() {
                Some(c) => Some((string_of(c.id.as_str()), ExecRefreshTarget::StackContainers)),
                None => None,
            },
            _ => None,
        }
    }

    pub fn open_exec_shell_dialog(&mut self)
        ensures
            exec_dialog_opened(*old(self), *final(self)),
    {
        if let Some((container_id, refresh_target)) = self.selected_exec_target() {
            self.exec_shell_dialog = Some(ExecShellDialog::new(container_id, refresh_target));
        }
    }

    pub fn handle_container_list_action(&mut self, action: AppAction) -> (r: AppEffect)
        ensures
            container_list_step(*old(self), *final(self), action, r),
    {
        match action {
            AppAction::Quit => {
                self.should_quit = true;
                AppEffect::Nothing
            },
            AppAction::Back => {
                self.container_presenter.clear_runtime_stats();
                self.screen = Screen::MainMenu;
                AppEffect::StopStats
            },
            AppAction::NavigateUp => {
                self.container_presenter.navigate_up();
                AppEffect::Nothing
            },
            AppAction::NavigateDown => {
                self.container_presenter.navigate_down();
                AppEffect::Nothing
            },
            AppAction::ViewLogs => match self.container_presenter.selected_container() {
                Some(c) => AppEffect::LoadLogs {
                    container_id: string_of(c.id.as_str()),
                    container_name: string_of(c.name.as_str()),
                },
                None => AppEffect::Nothing,
            },
            AppAction::ViewDetails => match self.container_presenter.selected_container() {
                Some(c) => AppEffect::LoadDetails { container_id: string_of(c.id.as_str()) },
                None => AppEffect::Nothing,
            },
            AppAction::StartStop => match self.container_presenter.selected_container() {
                Some(c) => {
                    let op = if c.can_stop {
                        ContainerOperation::Stop
                    } else if c.can_start {
                        ContainerOperation::Start
                    } else {
                        return AppEffect::Nothing;
                    };
                    AppEffect::Perform {
                        operation: Operation::Container {
                            op,
                            container_id: string_of(c.id.as_str()),
                        },
                        then: Reload::Containers,
                    }
                },
                None => AppEffect::Nothing,
            },
            AppAction::Delete => {
                let force = match self.container_presenter.selected_container() {
                    Some(c) => Some(c.can_stop),
                    None => None,
                };
                if let Some(force) = force {
                    self.confirm_dialog = Some((ConfirmAction::DeleteContainer(force), true));
                }
                AppEffect::Nothing
            },
            AppAction::PauseUnpause => match self.container_presenter.selected_container() {
                Some(c) => {
                    let op = if c.can_pause {
                        ContainerOperation::Pause
                    } else if c.can_unpause {
                        ContainerOperation::Unpause
                    } else {
                        return AppEffect::Nothing;
                    };
                    AppEffect::Perform {
                        operation: Operation::Container {
                            op,
                            container_id: string_of(c.id.as_str()),
                        },
                        then: Reload::Containers,
                    }
                },
                None => AppEffect::Nothing,
            },
            AppAction::Restart => match self.container_presenter.selected_container() {
                Some(c) => {
                    if !c.can_restart {
                        return AppEffect::Nothing;
                    }
                    AppEffect::Perform {
                        operation: Operation::Container {
                            op: ContainerOperation::Restart,
                            container_id: string_of(c.id.as_str()),
                        },
                        then: Reload::Containers,
                    }
                },
                None => AppEffect::Nothing,
            },
            AppAction::Refresh => AppEffect::Reload(Reload::Containers),
            AppAction::Prune => {
                self.confirm_dialog = Some((ConfirmAction::PruneContainers, true));
                AppEffect::Nothing
            },
            AppAction::ActivateFilter => {
                self.container_presenter.activate_filter();
                AppEffect::Nothing
            },
            AppAction::Exec => {
                self.open_exec_shell_dialog();
                AppEffect::Nothing
            },
            _ => AppEffect::Nothing,
        }
    }

    pub fn handle_container_logs_action(&mut self, action: AppAction) -> (r: AppEffect)
        ensures
            container_logs_step(*old(self), *final(self), action, r),
    {
        match action {
            AppAction::Quit | AppAction::Back => {
                self.container_presenter.clear_logs();
                self.screen = Screen::ContainerList;
            },
            AppAction::ScrollUp => self.container_presenter.scroll_logs_up(LOG_SCROLL_STEP),
            AppAction::ScrollDown => self.container_presenter.scroll_logs_down(LOG_SCROLL_STEP),
            _ => {},
        }
        AppEffect::Nothing
    }

    pub fn handle_details_action(&mut self, action: AppAction) -> (r: AppEffect)
        ensures
            details_step(*old(self), *final(self), action, r),
    {
        match action {
            AppAction::Quit | AppAction::Back => match self.screen {
                Screen::ContainerDetails => {
                    self.container_presenter.clear_details();
                    self.screen = Screen::ContainerList;
                },
                Screen::ImageDetails => {
                    self.image_presenter.clear_details();
                    self.screen = Screen::ImageList;
                },
                _ => {},
            },
            _ => {},
        }
        AppEffect::Nothing
    }

    pub fn handle_volume_list_action(&mut self, action: AppAction) -> (r: AppEffect)
        ensures
            volume_list_step(*old(self), *final(self), action, r),
    {
        match action {
            AppAction::Quit => {
                self.should_quit = true;
                AppEffect::Nothing
            },
            AppAction::Back => {
                self.screen = Screen::MainMenu;
                AppEffect::Nothing
            },
            AppAction::NavigateUp => {
                self.volume_presenter.navigate_up();
                AppEffect::Nothing
            },
            AppAction::NavigateDown => {
                self.volume_presenter.navigate_down();
                AppEffect::Nothing
            },
            AppAction::Delete => {
                let can_delete = match self.volume_presenter.selected_volume() {
                    Some(v) => Some(v.can_delete),
                    None => None,
                };
                match can_delete {
                    Some(true) => {
                        self.confirm_dialog = Some((ConfirmAction::DeleteVolume, true));
                    },
                    Some(false) => {
                        self.show_error(string_of(VOLUME_IN_USE_DELETE_MESSAGE));
                    },
                    None => {},
                }
                AppEffect::Nothing
            },
            AppAction::Refresh => AppEffect::Reload(Reload::Volumes),
            AppAction::Prune => {
                self.confirm_dialog = Some((ConfirmAction::PruneVolumes, true));
                AppEffect::Nothing
            },
            AppAction::ActivateFilter => {
                self.volume_presenter.activate_filter();
                AppEffect::Nothing
            },
            _ => AppEffect::Nothing,
        }
    }

    pub fn handle_image_list_action(&mut self, action: AppAction) -> (r: AppEffect)
        ensures
            image_list_step(*old(self), *final(self), action, r),
    {
        match action {
            AppAction::Quit => {
                self.should_quit = true;
                AppEffect::Nothing
            },
            AppAction::Back => {
                self.screen = Screen::MainMenu;
                AppEffect::Nothing
            },
            AppAction::NavigateUp => {
                self.image_presenter.navigate_up();
                AppEffect::Nothing
            },
            AppAction::NavigateDown => {
                self.image_presenter.navigate_down();
                AppEffect::Nothing
            },
            AppAction::ViewDetails => {
                let image = match self.image_presenter.selected_image() {
                    Some(i) => Some(i.duplicate()),
                    None => None,
                };
                if let Some(image) = image {
                    self.image_presenter.set_details(image);
                    self.screen = Screen::ImageDetails;
                }
                AppEffect::Nothing
            },
            AppAction::Delete => {
                let force = match self.image_presenter.selected_image() {
                    Some(i) => Some(i.in_use),
                    None => None,
                };
                if let Some(force) = force {
                    self.confirm_dialog = Some((ConfirmAction::DeleteImage(force), true));
                }
                AppEffect::Nothing
            },
            AppAction::Refresh => AppEffect::Reload(Reload::Images),
            AppAction::Prune => {
                self.confirm_dialog = Some((ConfirmAction::PruneImages, true));
                AppEffect::Nothing
            },
            AppAction::ActivateFilter => {
                self.image_presenter.activate_filter();
                AppEffect::Nothing
            },
            _ => AppEffect::Nothing,
        }
    }

    /// The work on the selected stack's containers that can be started
    /// (`start`) or stopped, then reloading as told; nothing when no stack
    /// is selected or none of its containers qualifies.
    fn stack_wide_effect(&self, start: bool, then: Reload) -> (r: AppEffect)
        ensures
            match selected_stack_of(self.stack_presenter) {
                Some(s) => {
                    let ids = if start {
                        startable_ids(s.containers@)
                    } else {
                        stoppable_ids(s.containers@)
                    };
                    if ids.len() > 0 {
                        stack_effect(
                            r,
                            if start {
                                StackOperation::StartAll
                            } else {
                                StackOperation::StopAll
                            },
                            ids,
                            then,
                        )
                    } else {
                        r == AppEffect::Nothing
                    }
                },
                None => r == AppEffect::Nothing,
            },
    {
        match self.stack_presenter.selected_stack() {
            Some(stack) => {
                let ids = ids_where(&stack.containers, start);
                if ids.len() == 0 {
                    return AppEffect::Nothing;
                }
                let op = if start {
                    StackOperation::StartAll
                } else {
                    StackOperation::StopAll
                };
                AppEffect::Perform { operation: Operation::Stack { op, container_ids: ids }, then }
            },
            None => AppEffect::Nothing,
        }
    }

    pub fn handle_stack_list_action(&mut self, action: AppAction) -> (r: AppEffect)
        ensures
            stack_list_step(*old(self), *final(self), action, r),
    {
        match action {
            AppAction::Quit => {
                self.should_quit = true;
                AppEffect::Nothing
            },
            AppAction::Back => {
                self.screen = Screen::MainMenu;
                AppEffect::Nothing
            },
            AppAction::NavigateUp => {
                self.stack_presenter.navigate_up();
                AppEffect::Nothing
            },
            AppAction::NavigateDown => {
                self.stack_presenter.navigate_down();
                AppEffect::Nothing
            },
            AppAction::Select => {
                let containers = match self.stack_presenter.selected_stack() {
                    Some(stack) => Some(copy_stack_containers(&stack.containers)),
                    None => None,
                };
                if let Some(containers) = containers {
                    self.stack_presenter.set_stack_containers(containers);
                    self.screen = Screen::StackContainers;
                }
                AppEffect::Nothing
            },
            AppAction::StartStop => self.stack_wide_effect(true, Reload::Stacks),
            AppAction::StopAll => self.stack_wide_effect(false, Reload::Stacks),
            AppAction::Refresh => AppEffect::Reload(Reload::Stacks),
            AppAction::ActivateFilter => {
                self.stack_presenter.activate_filter();
                AppEffect::Nothing
            },
            _ => AppEffect::Nothing,
        }
    }

    pub fn handle_stack_containers_action(&mut self, action: AppAction) -> (r: AppEffect)
        ensures
            stack_containers_step(*old(self), *final(self), action, r),
    {
        match action {
            AppAction::Quit => {
                self.should_quit = true;
                AppEffect::Nothing
            },
            AppAction::Back => {
                self.screen = Screen::StackList;
                self.stack_presenter.set_stack_containers(Vec::new());
                AppEffect::Reload(Reload::Stacks)
            },
            AppAction::NavigateUp => {
                self.stack_presenter.navigate_container_up();
                AppEffect::Nothing
            },
            AppAction::NavigateDown => {
                self.stack_presenter.navigate_container_down();
                AppEffect::Nothing
            },
            AppAction::StartStop => match self.stack_presenter.selected_stack_container() {
                Some(c) => {
                    let op = if c.can_stop {
                        ContainerOperation::Stop
                    } else if c.can_start {
                        ContainerOperation::Start
                    } else {
                        return AppEffect::Nothing;
                    };
                    AppEffect::Perform {
                        operation: Operation::Container {
                            op,
                            container_id: string_of(c.id.as_str()),
                        },
                        then: Reload::StackContainers,
                    }
                },
                None => AppEffect::Nothing,
            },
            AppAction::Delete => {
                let force = match self.stack_presenter.selected_stack_container() {
                    Some(c) => Some(c.can_stop),
                    None => None,
                };
                if let Some(force) = force {
                    self.confirm_dialog = Some((ConfirmAction::DeleteContainer(force), true));
                }
                AppEffect::Nothing
            },
            AppAction::StopAll => self.stack_wide_effect(false, Reload::StackContainers),
            AppAction::StartAll => self.stack_wide_effect(true, Reload::StackContainers),
            AppAction::RemoveAll => {
                if self.stack_presenter.stack_containers.len() > 0 {
                    self.confirm_dialog = Some((ConfirmAction::RemoveAllStackContainers, true));
                }
                AppEffect::Nothing
            },
            AppAction::Refresh => AppEffect::Reload(Reload::StackContainers),
            AppAction::Exec => {
                self.open_exec_shell_dialog();
                AppEffect::Nothing
            },
            _ => AppEffect::Nothing,
        }
    }

    /// The work a confirmed dialog asks for.
    pub fn execute_confirm_action(&self, action: ConfirmAction) -> (r: AppEffect)
        ensures
            confirmed_effect(*self, action, r),
    {
        match action {
            ConfirmAction::DeleteContainer(force) => {
                let (container_id, then) = match self.screen {
                    Screen::StackContainers => (
                        match self.stack_presenter.selected_stack_container() {
                            Some(c) => Some(string_of(c.id.as_str())),
                            None => None,
                        },
                        Reload::StackContainers,
                    ),
                    _ => (
                        match self.container_presenter.selected_container() {
                            Some(c) => Some(string_of(c.id.as_str())),
                            None => None,
                        },
                        Reload::Containers,
                    ),
                };
                match container_id {
                    Some(container_id) => AppEffect::Perform {
                        operation: Operation::Container {
                            op: ContainerOperation::Delete(force),
                            container_id,
                        },
                        then,
                    },
                    None => AppEffect::Nothing,
                }
            },
            ConfirmAction::DeleteVolume => match self.volume_presenter.selected_volume() {
                Some(v) => AppEffect::Perform {
                    operation: Operation::DeleteVolume { name: string_of(v.name.as_str()) },
                    then: Reload::Volumes,
                },
                None => AppEffect::Nothing,
            },
            ConfirmAction::DeleteImage(force) => match self.image_presenter.selected_image() {
                Some(i) => AppEffect::Perform {
                    operation: Operation::DeleteImage {
                        image_id: string_of(i.id.as_str()),
                        force,
                    },
                    then: Reload::Images,
                },
                None => AppEffect::Nothing,
            },
            ConfirmAction::PruneContainers => AppEffect::Prune(PruneTarget::Containers),
            ConfirmAction::PruneVolumes => AppEffect::Prune(PruneTarget::Volumes),
            ConfirmAction::PruneImages => AppEffect::Prune(PruneTarget::Images),
            ConfirmAction::RemoveAllStackContainers => {
                let ids = container_ids(&self.stack_presenter.stack_containers);
                AppEffect::Perform {
                    operation: Operation::Stack { op: StackOperation::RemoveAll, container_ids: ids },
                    then: Reload::ShowStacks,
                }
            },
        }
    }

    pub fn handle_exec_shell_action(&mut self, action: AppAction) -> (r: AppEffect)
        requires
            old(self).exec_shell_dialog is Some,
        ensures
            exec_dialog_step(*old(self), *final(self), action, r),
    {
        match action {
            AppAction::NavigateUp => {
                if let Some(dialog) = &mut self.exec_shell_dialog {
                    dialog.navigate_up();
                }
            },
            AppAction::NavigateDown => {
                if let Some(dialog) = &mut self.exec_shell_dialog {
                    dialog.navigate_down();
                }
            },
            AppAction::Select => {
                let request = match &self.exec_shell_dialog {
                    Some(dialog) => Some(dialog.build_request()),
                    None => None,
                };
                self.exec_shell_dialog = None;
                self.pending_exec = request;
            },
            AppAction::Back | AppAction::Quit => {
                self.exec_shell_dialog = None;
            },
            _ => {},
        }
        AppEffect::Nothing
    }

    pub fn handle_action(&mut self, action: AppAction) -> (r: AppEffect)
        ensures
            action_step(*old(self), *final(self), action, r),
    {
        if self.popup_message.is_some() {
            self.popup_message = None;
            return AppEffect::Nothing;
        }
        if let Some((confirm_action, selected_yes)) = self.confirm_dialog {
            match action {
                AppAction::NavigateUp | AppAction::NavigateDown => {
                    self.confirm_dialog = Some((confirm_action, !selected_yes));
                    return AppEffect::Nothing;
                },
                AppAction::Select => {
                    self.confirm_dialog = None;
                    if selected_yes {
                        return self.execute_confirm_action(confirm_action);
                    }
                    return AppEffect::Nothing;
                },
                AppAction::Back | AppAction::Quit => {
                    self.confirm_dialog = None;
                    return AppEffect::Nothing;
                },
                _ => {
                    return AppEffect::Nothing;
                },
            }
        }
        if self.exec_shell_dialog.is_some() {
            return self.handle_exec_shell_action(action);
        }
        match self.screen {
            Screen::MainMenu => self.handle_main_menu_action(action),
            Screen::ContainerList => self.handle_container_list_action(action),
            Screen::ContainerLogs => self.handle_container_logs_action(action),
            Screen::ContainerDetails => self.handle_details_action(action),
            Screen::VolumeList => self.handle_volume_list_action(action),
            Screen::ImageList => self.handle_image_list_action(action),
            Screen::ImageDetails => self.handle_details_action(action),
            Screen::StackList => self.handle_stack_list_action(action),
            Screen::StackContainers => self.handle_stack_containers_action(action),
        }
    }
}


// ---------------------------------------------------------------------
// Keys typed into an open filter.
// ---------------------------------------------------------------------

/// Whether an open filter takes the key: Esc closes it, Backspace erases,
/// any character is typed.
pub open spec fn filter_takes(code: KeyCode) -> bool {
    code is Esc || code is Backspace || code is Char
}

/// The filter text after Backspace.
pub open spec fn erased(text: Seq<char>) -> Seq<char> {
    if text.len() > 0 {
        text.drop_last()
    } else {
        text
    }
}

pub open spec fn container_filter_edit(p: ContainerPresenter, q: ContainerPresenter, code: KeyCode) -> bool {
    match code {
        KeyCode::Esc => !q.filter.active && q.filter.value@.len() == 0 && q == (ContainerPresenter {
            filter: q.filter,
            selection: resized(p.selection, p.containers@.len()),
            ..p
        }),
        KeyCode::Backspace => q.filter.active == p.filter.active && q.filter.value@ == erased(
            p.filter.value@,
        ) && q == (ContainerPresenter {
            filter: q.filter,
            selection: resized(p.selection, q.visible().len()),
            ..p
        }),
        KeyCode::Char(c) => q.filter.active == p.filter.active && q.filter.value@
            == p.filter.value@.push(c) && q == (ContainerPresenter {
            filter: q.filter,
            selection: resized(p.selection, q.visible().len()),
            ..p
        }),
        _ => q == p,
    }
}

pub open spec fn volume_filter_edit(p: VolumePresenter, q: VolumePresenter, code: KeyCode) -> bool {
    match code {
        KeyCode::Esc => !q.filter.active && q.filter.value@.len() == 0 && q == (VolumePresenter {
            filter: q.filter,
            selection: resized(p.selection, p.volumes@.len()),
            ..p
        }),
        KeyCode::Backspace => q.filter.active == p.filter.active && q.filter.value@ == erased(
            p.filter.value@,
        ) && q == (VolumePresenter {
            filter: q.filter,
            selection: resized(p.selection, q.visible().len()),
            ..p
        }),
        KeyCode::Char(c) => q.filter.active == p.filter.active && q.filter.value@
            == p.filter.value@.push(c) && q == (VolumePresenter {
            filter: q.filter,
            selection: resized(p.selection, q.visible().len()),
            ..p
        }),
        _ => q == p,
    }
}

pub open spec fn image_filter_edit(p: ImagePresenter, q: ImagePresenter, code: KeyCode) -> bool {
    match code {
        KeyCode::Esc => !q.filter.active && q.filter.value@.len() == 0 && q == (ImagePresenter {
            filter: q.filter,
            selection: resized(p.selection, p.images@.len()),
            ..p
        }),
        KeyCode::Backspace => q.filter.active == p.filter.active && q.filter.value@ == erased(
            p.filter.value@,
        ) && q == (ImagePresenter {
            filter: q.filter,
            selection: resized(p.selection, q.visible().len()),
            ..p
        }),
        KeyCode::Char(c) => q.filter.active == p.filter.active && q.filter.value@
            == p.filter.value@.push(c) && q == (ImagePresenter {
            filter: q.filter,
            selection: resized(p.selection, q.visible().len()),
            ..p
        }),
        _ => q == p,
    }
}

pub open spec fn stack_filter_edit(p: StackPresenter, q: StackPresenter, code: KeyCode) -> bool {
    match code {
        KeyCode::Esc => !q.filter.active && q.filter.value@.len() == 0 && q == (StackPresenter {
            filter: q.filter,
            selection: resized(p.selection, p.stacks@.len()),
            ..p
        }),
        KeyCode::Backspace => q.filter.active == p.filter.active && q.filter.value@ == erased(
            p.filter.value@,
        ) && q == (StackPresenter {
            filter: q.filter,
            selection: resized(p.selection, q.visible().len()),
            ..p
        }),
        KeyCode::Char(c) => q.filter.active == p.filter.active && q.filter.value@
            == p.filter.value@.push(c) && q == (StackPresenter {
            filter: q.filter,
            selection: resized(p.selection, q.visible().len()),
            ..p
        }),
        _ => q == p,
    }
}

/// A key typed into the filter of the shown list; screens without a list
/// are left as they are.
pub open spec fn filter_key_step(a: App, b: App, code: KeyCode) -> bool {
    match a.screen {
        Screen::ContainerList => b == (App { container_presenter: b.container_presenter, ..a })
            && container_filter_edit(a.container_presenter, b.container_presenter, code),
        Screen::VolumeList => b == (App { volume_presenter: b.volume_presenter, ..a })
            && volume_filter_edit(a.volume_presenter, b.volume_presenter, code),
        Screen::ImageList => b == (App { image_presenter: b.image_presenter, ..a })
            && image_filter_edit(a.image_presenter, b.image_presenter, code),
        Screen::StackList => b == (App { stack_presenter: b.stack_presenter, ..a })
            && stack_filter_edit(a.stack_presenter, b.stack_presenter, code),
        _ => b == a,
    }
}

/// Whether the shown list has its filter input open.
pub open spec fn filter_open(a: App) -> bool {
    match a.screen {
        Screen::ContainerList => a.container_presenter.filter.active,
        Screen::VolumeList => a.volume_presenter.filter.active,
        Screen::ImageList => a.image_presenter.filter.active,
        Screen::StackList => a.stack_presenter.filter.active,
        _ => false,
    }
}

/// Whether a pop-up or a dialog covers the screen.
pub open spec fn covered(a: App) -> bool {
    a.popup_message is Some || a.confirm_dialog is Some || a.exec_shell_dialog is Some
}

/// One key press: an open filter of an uncovered list takes the keys it
/// edits with; every other key is turned into an action, if it is bound.
pub open spec fn key_step(a: App, b: App, key: KeyInput, r: AppEffect) -> bool {
    if !covered(a) && filter_open(a) && filter_takes(key.code) {
        filter_key_step(a, b, key.code) && r == AppEffect::Nothing
    } else {
        match key_action(key) {
            Some(action) => action_step(a, b, action, r),
            None => b == a && r == AppEffect::Nothing,
        }
    }
}

// ---------------------------------------------------------------------
// Outcomes of the work asked for.
// ---------------------------------------------------------------------

/// The noun a prune message uses.
pub open spec fn prune_noun(target: PruneTarget) -> Seq<char> {
    match target {
        PruneTarget::Containers => "container"@,
        PruneTarget::Volumes => "volume"@,
        PruneTarget::Images => "image"@,
    }
}

/// The list reloaded after a prune.
pub open spec fn prune_reload(target: PruneTarget) -> Reload {
    match target {
        PruneTarget::Containers => Reload::Containers,
        PruneTarget::Volumes => Reload::Volumes,
        PruneTarget::Images => Reload::Images,
    }
}

/// The stack presenter after loading the stacks: the new list on success,
/// unchanged on failure.
pub open spec fn stacks_loaded(p: StackPresenter, result: Result<Vec<StackDto>, AppError>) -> StackPresenter {
    match result {
        Ok(ss) => StackPresenter {
            stacks: ss,
            selection: resized(p.selection, filtered_stacks_of(ss@, p.filter.value@).len()),
            error: None,
            ..p
        },
        Err(_) => p,
    }
}

/// The stack presenter with the first shown stack of the given name
/// selected, if there is one.
pub open spec fn stack_reselected(p: StackPresenter, name: Option<Seq<char>>) -> StackPresenter {
    match name {
        Some(n) => match StackPresenter::first_named(p.visible(), n, 0) {
            Some(i) => StackPresenter {
                selection: crate::presentation::selection::TableSelection {
                    selected: after_select(Some(i as usize), p.selection.items_count),
                    items_count: p.selection.items_count,
                },
                ..p
            },
            None => p,
        },
        None => p,
    }
}

/// The containers of the selected stack, none when no stack is selected.
pub open spec fn selected_stack_containers(p: StackPresenter) -> Seq<StackContainerDto> {
    match selected_stack_of(p) {
        Some(s) => s.containers@,
        None => Seq::empty(),
    }
}

pub open spec fn stats_error_text(container_id: Seq<char>, message: Seq<char>) -> Seq<char> {
    "Stats stream failed for "@ + container_id + ": "@ + message
}

impl App {
    pub fn is_filter_active(&self) -> (r: bool)
        ensures
            r == filter_open(*self),
    {
        match self.screen {
            Screen::ContainerList => self.container_presenter.is_filter_active(),
            Screen::VolumeList => self.volume_presenter.is_filter_active(),
            Screen::ImageList => self.image_presenter.is_filter_active(),
            Screen::StackList => self.stack_presenter.is_filter_active(),
            _ => false,
        }
    }

    pub fn has_modal_overlay(&self) -> (r: bool)
        ensures
            r == covered(*self),
    {
        self.popup_message.is_some() || self.confirm_dialog.is_some()
            || self.exec_shell_dialog.is_some()
    }

    /// Edits the shown list's filter; whether the key was one the filter
    /// takes.
    pub fn handle_filter_key(&mut self, code: KeyCode) -> (r: bool)
        ensures
            r == filter_takes(code),
            r ==> filter_key_step(*old(self), *final(self), code),
            !r ==> *final(self) == *old(self),
    {
        match code {
            KeyCode::Esc => {
                match self.screen {
                    Screen::ContainerList => self.container_presenter.deactivate_filter(),
                    Screen::VolumeList => self.volume_presenter.deactivate_filter(),
                    Screen::ImageList => self.image_presenter.deactivate_filter(),
                    Screen::StackList => self.stack_presenter.deactivate_filter(),
                    _ => {},
                }
                true
            },
            KeyCode::Backspace => {
                match self.screen {
                    Screen::ContainerList => self.container_presenter.pop_filter_char(),
                    Screen::VolumeList => self.volume_presenter.pop_filter_char(),
                    Screen::ImageList => self.image_presenter.pop_filter_char(),
                    Screen::StackList => self.stack_presenter.pop_filter_char(),
                    _ => {},
                }
                true
            },
            KeyCode::Char(c) => {
                match self.screen {
                    Screen::ContainerList => self.container_presenter.push_filter_char(c),
                    Screen::VolumeList => self.volume_presenter.push_filter_char(c),
                    Screen::ImageList => self.image_presenter.push_filter_char(c),
                    Screen::StackList => self.stack_presenter.push_filter_char(c),
                    _ => {},
                }
                true
            },
            _ => false,
        }
    }

    /// One key press.
    pub fn handle_key(&mut self, key: KeyInput) -> (r: AppEffect)
        ensures
            key_step(*old(self), *final(self), key, r),
    {
        if !self.has_modal_overlay() && self.is_filter_active() && self.handle_filter_key(key.code) {
            return AppEffect::Nothing;
        }
        match map_key_to_action(key) {
            Some(action) => self.handle_action(action),
            None => AppEffect::Nothing,
        }
    }

    /// The containers are loaded: show them, keep the statistics of the
    /// active ones only, and watch those; or show the error.
    pub fn finish_containers_load(&mut self, result: Result<Vec<ContainerDto>, AppError>) -> (r:
        AppEffect)
        ensures
            match result {
                Ok(cs) => {
                    let p = old(self).container_presenter;
                    let q = final(self).container_presenter;
                    &&& *final(self) == (App { container_presenter: q, ..*old(self) })
                    &&& q == (ContainerPresenter {
                        containers: q.containers,
                        selection: resized(
                            p.selection,
                            filtered_containers_of(cs@, p.filter.value@).len(),
                        ),
                        error: None,
                        ..p
                    })
                    &&& q.containers@.len() == cs@.len()
                    &&& forall|k: int|
                        0 <= k < cs@.len() ==> #[trigger] q.containers@[k] == (if active_ids(
                            cs@,
                        ).contains(cs@[k].id@) {
                            cs@[k]
                        } else {
                            ContainerDto { runtime_stats: None, ..cs@[k] }
                        })
                    &&& r matches AppEffect::WatchStats { container_ids } && texts(container_ids@)
                        == active_ids(cs@)
                },
                Err(e) => shows_error(*old(self), *final(self), app_error_text(e)) && r
                    == AppEffect::Nothing,
            },
            lists_consistent(*old(self)) ==> lists_consistent(*final(self)),
    {
        match result {
            Ok(containers) => {
                let ids = active_container_ids(&containers);
                let ghost before = self.container_presenter.selection;
                self.container_presenter.set_containers(containers);
                let ghost loaded = self.container_presenter.containers@;
                self.container_presenter.retain_runtime_stats(&ids);
                proof {
                    let q = self.container_presenter;
                    lemma_rows_bounded(*self);
                    assert forall|k: int| 0 <= k < loaded.len() implies (
                    #[trigger] loaded[k]).name@ == q.containers@[k].name@ && loaded[k].image@
                        == q.containers@[k].image@ by {}
                    lemma_stats_keep_shown_rows(loaded, q.containers@, q.filter.value@);
                    lemma_resized_fits(before, q.visible().len());
                }
                AppEffect::WatchStats { container_ids: ids }
            },
            Err(e) => {
                self.show_error(e.to_text());
                AppEffect::Nothing
            },
        }
    }

    /// The statistics stream could not be started: show why.
    pub fn finish_stats_subscription(&mut self, result: Result<(), AppError>)
        ensures
            match result {
                Ok(()) => *final(self) == *old(self),
                Err(e) => shows_error(*old(self), *final(self), app_error_text(e)),
            },
            lists_consistent(*old(self)) ==> lists_consistent(*final(self)),
    {
        if let Err(e) = result {
            self.show_error(e.to_text());
        }
    }

    pub fn finish_volumes_load(&mut self, result: Result<Vec<VolumeDto>, AppError>)
        ensures
            match result {
                Ok(vs) => *final(self) == (App {
                    volume_presenter: VolumePresenter {
                        volumes: vs,
                        selection: resized(
                            old(self).volume_presenter.selection,
                            filtered_volumes_of(vs@, old(self).volume_presenter.filter.value@).len(),
                        ),
                        error: None,
                        ..old(self).volume_presenter
                    },
                    ..*old(self)
                }),
                Err(e) => shows_error(*old(self), *final(self), app_error_text(e)),
            },
            lists_consistent(*old(self)) ==> lists_consistent(*final(self)),
    {
        match result {
            Ok(volumes) => {
                let ghost before = self.volume_presenter.selection;
                self.volume_presenter.set_volumes(volumes);
                proof {
                    lemma_rows_bounded(*self);
                    lemma_resized_fits(before, self.volume_presenter.visible().len());
                }
            },
            Err(e) => self.show_error(e.to_text()),
        }
    }

    pub fn finish_images_load(&mut self, result: Result<Vec<ImageDto>, AppError>)
        ensures
            match result {
                Ok(is) => *final(self) == (App {
                    image_presenter: ImagePresenter {
                        images: is,
                        selection: resized(
                            old(self).image_presenter.selection,
                            filtered_images_of(is@, old(self).image_presenter.filter.value@).len(),
                        ),
                        error: None,
                        ..old(self).image_presenter
                    },
                    ..*old(self)
                }),
                Err(e) => shows_error(*old(self), *final(self), app_error_text(e)),
            },
            lists_consistent(*old(self)) ==> lists_consistent(*final(self)),
    {
        match result {
            Ok(images) => {
                let ghost before = self.image_presenter.selection;
                self.image_presenter.set_images(images);
                proof {
                    lemma_rows_bounded(*self);
                    lemma_resized_fits(before, self.image_presenter.visible().len());
                }
            },
            Err(e) => self.show_error(e.to_text()),
        }
    }

    pub fn finish_stacks_load(&mut self, result: Result<Vec<StackDto>, AppError>)
        ensures
            match result {
                Ok(_) => *final(self) == (App {
                    stack_presenter: stacks_loaded(old(self).stack_presenter, result),
                    ..*old(self)
                }),
                Err(e) => shows_error(*old(self), *final(self), app_error_text(e)),
            },
            lists_consistent(*old(self)) ==> lists_consistent(*final(self)),
    {
        match result {
            Ok(stacks) => {
                let ghost before = self.stack_presenter.selection;
                self.stack_presenter.set_stacks(stacks);
                proof {
                    lemma_rows_bounded(*self);
                    lemma_resized_fits(before, self.stack_presenter.visible().len());
                }
            },
            Err(e) => self.show_error(e.to_text()),
        }
    }

    /// The stacks are loaded again for the stack container screen: the
    /// stack shown before stays selected (by name) and its containers are
    /// shown anew.
    pub fn finish_stack_containers_refresh(&mut self, result: Result<Vec<StackDto>, AppError>)
        ensures
            ({
                let name = match selected_stack_of(old(self).stack_presenter) {
                    Some(s) => Some(s.name@),
                    None => None,
                };
                let chosen = stack_reselected(stacks_loaded(old(self).stack_presenter, result), name);
                &&& *final(self) == (App {
                    stack_presenter: final(self).stack_presenter,
                    popup_message: final(self).popup_message,
                    ..*old(self)
                })
                &&& shows_stack_containers(
                    chosen,
                    final(self).stack_presenter,
                    selected_stack_containers(chosen),
                )
                &&& match result {
                    Ok(_) => final(self).popup_message == old(self).popup_message,
                    Err(e) => final(self).popup_message matches Some(PopupMessage::Error(m)) && m@
                        == app_error_text(e),
                }
            }),
            lists_consistent(*old(self)) ==> lists_consistent(*final(self)),
    {
        let name = match self.stack_presenter.selected_stack() {
            Some(stack) => Some(string_of(stack.name.as_str())),
            None => None,
        };
        self.finish_stacks_load(result);
        if let Some(name) = name {
            self.stack_presenter.select_stack_by_name(name.as_str());
        }
        proof {
            lemma_rows_bounded(*self);
        }
        let containers = match self.stack_presenter.selected_stack() {
            Some(stack) => {
                proof {
                    vstd::std_specs::vec::axiom_spec_len(&stack.containers);
                }
                copy_stack_containers(&stack.containers)
            },
            None => Vec::new(),
        };
        let ghost before = self.stack_presenter.container_selection;
        self.stack_presenter.set_stack_containers(containers);
        proof {
            lemma_rows_bounded(*self);
            lemma_resized_fits(before, self.stack_presenter.stack_containers@.len());
        }
    }

    /// The log is loaded: show it on the log screen; or show the error.
    pub fn finish_logs_load(&mut self, result: Result<ContainerLogsDto, AppError>)
        ensures
            match result {
                Ok(logs) => *final(self) == (App {
                    screen: Screen::ContainerLogs,
                    container_presenter: ContainerPresenter {
                        logs: Some(logs),
                        logs_scroll: 0,
                        ..old(self).container_presenter
                    },
                    ..*old(self)
                }),
                Err(e) => shows_error(
                    App {
                        screen: if old(self).container_presenter.logs is Some {
                            Screen::ContainerLogs
                        } else {
                            old(self).screen
                        },
                        ..*old(self)
                    },
                    *final(self),
                    app_error_text(e),
                ),
            },
            lists_consistent(*old(self)) ==> lists_consistent(*final(self)),
    {
        match result {
            Ok(logs) => self.container_presenter.set_logs(logs),
            Err(e) => self.show_error(e.to_text()),
        }
        if self.container_presenter.logs.is_some() {
            self.screen = Screen::ContainerLogs;
        }
    }

    /// The details are loaded: show them on the detail screen; a container
    /// that is gone, or a failure, is reported instead.
    pub fn finish_details_load(&mut self, result: Result<Option<ContainerDto>, AppError>)
        ensures
            ({
                let stays = App {
                    screen: if old(self).container_presenter.selected_container is Some {
                        Screen::ContainerDetails
                    } else {
                        old(self).screen
                    },
                    ..*old(self)
                };
                match result {
                    Ok(Some(c)) => *final(self) == (App {
                        screen: Screen::ContainerDetails,
                        container_presenter: ContainerPresenter {
                            selected_container: Some(c),
                            ..old(self).container_presenter
                        },
                        ..*old(self)
                    }),
                    Ok(None) => shows_error(stays, *final(self), CONTAINER_NOT_FOUND_MESSAGE@),
                    Err(e) => shows_error(stays, *final(self), app_error_text(e)),
                }
            }),
            lists_consistent(*old(self)) ==> lists_consistent(*final(self)),
    {
        match result {
            Ok(Some(container)) => self.container_presenter.set_details(container),
            Ok(None) => self.show_error(string_of(CONTAINER_NOT_FOUND_MESSAGE)),
            Err(e) => self.show_error(e.to_text()),
        }
        if self.container_presenter.selected_container.is_some() {
            self.screen = Screen::ContainerDetails;
        }
    }

    /// An operation is done: reload as told (showing the stack list first
    /// when told so), or show the error.
    pub fn finish_operation(&mut self, result: Result<(), AppError>, then: Reload) -> (r: AppEffect)
        ensures
            match result {
                Ok(()) => if then == Reload::ShowStacks {
                    *final(self) == (App { screen: Screen::StackList, ..*old(self) }) && r
                        == AppEffect::Reload(Reload::Stacks)
                } else {
                    *final(self) == *old(self) && r == AppEffect::Reload(then)
                },
                Err(e) => shows_error(*old(self), *final(self), app_error_text(e)) && r
                    == AppEffect::Nothing,
            },
            lists_consistent(*old(self)) ==> lists_consistent(*final(self)),
    {
        match result {
            Ok(()) => match then {
                Reload::ShowStacks => {
                    self.screen = Screen::StackList;
                    AppEffect::Reload(Reload::Stacks)
                },
                _ => AppEffect::Reload(then),
            },
            Err(e) => {
                self.show_error(e.to_text());
                AppEffect::Nothing
            },
        }
    }

    /// A prune is done: say how much went (`freed` is the freed space as
    /// it is shown) and reload the list; or show the error.
    pub fn finish_prune(
        &mut self,
        target: PruneTarget,
        result: Result<PruneResultDto, AppError>,
        freed: &str,
    ) -> (r: AppEffect)
        ensures
            match result {
                Ok(d) => shows_info(
                    *old(self),
                    *final(self),
                    prune_text(prune_noun(target), d.deleted_count, freed@),
                ) && r == AppEffect::Reload(prune_reload(target)),
                Err(e) => shows_error(*old(self), *final(self), app_error_text(e)) && r
                    == AppEffect::Nothing,
            },
            lists_consistent(*old(self)) ==> lists_consistent(*final(self)),
    {
        match result {
            Ok(pruned) => {
                let (noun, reload) = match target {
                    PruneTarget::Containers => ("container", Reload::Containers),
                    PruneTarget::Volumes => ("volume", Reload::Volumes),
                    PruneTarget::Images => ("image", Reload::Images),
                };
                self.popup_message = Some(
                    PopupMessage::Info(prune_result_message(noun, pruned.deleted_count, freed)),
                );
                AppEffect::Reload(reload)
            },
            Err(e) => {
                self.show_error(e.to_text());
                AppEffect::Nothing
            },
        }
    }

    /// An event of the statistics stream: a sample is shown on its
    /// container, a failure is reported.
    pub fn apply_stats_event(&mut self, event: ContainerStatsEvent)
        ensures
            match event {
                ContainerStatsEvent::Update(u) => {
                    let p = old(self).container_presenter;
                    let q = final(self).container_presenter;
                    &&& *final(self) == (App { container_presenter: q, ..*old(self) })
                    &&& q == (ContainerPresenter { containers: q.containers, ..p })
                    &&& q.containers@.len() == p.containers@.len()
                    &&& forall|k: int|
                        0 <= k < p.containers@.len() ==> #[trigger] q.containers@[k] == (if p.containers@[k].id@
                            == u.container_id@ {
                            ContainerDto { runtime_stats: Some(u.stats), ..p.containers@[k] }
                        } else {
                            p.containers@[k]
                        })
                },
                ContainerStatsEvent::Error { container_id, message } => shows_error(
                    *old(self),
                    *final(self),
                    stats_error_text(container_id@, message@),
                ),
            },
            lists_consistent(*old(self)) ==> lists_consistent(*final(self)),
    {
        match event {
            ContainerStatsEvent::Update(update) => {
                let ghost before = self.container_presenter.containers@;
                self.container_presenter.apply_stats_update(update);
                proof {
                    let q = self.container_presenter;
                    assert forall|k: int| 0 <= k < before.len() implies (
                    #[trigger] before[k]).name@ == q.containers@[k].name@ && before[k].image@
                        == q.containers@[k].image@ by {}
                    lemma_stats_keep_shown_rows(before, q.containers@, q.filter.value@);
                }
            },
            ContainerStatsEvent::Error { container_id, message } => {
                let mut text = string_of("Stats stream failed for ");
                push_text(&mut text, container_id.as_str());
                push_text(&mut text, ": ");
                push_text(&mut text, message.as_str());
                self.show_error(text);
            },
        }
    }

    /// Takes the shell request waiting to be run, if any.
    pub fn take_pending_exec(&mut self) -> (r: Option<PendingExec>)
        ensures
            r == old(self).pending_exec,
            *final(self) == (App { pending_exec: None, ..*old(self) }),
            lists_consistent(*old(self)) ==> lists_consistent(*final(self)),
    {
        let request = self.pending_exec.take();
        request
    }

    /// The shell has exited and its list is reloaded: report a failure.
    pub fn finish_exec(&mut self, result: &ExecCommandResult)
        ensures
            match exec_outcome_text(*result) {
                Some(t) => shows_error(*old(self), *final(self), t),
                None => *final(self) == *old(self),
            },
            lists_consistent(*old(self)) ==> lists_consistent(*final(self)),
    {
        if let Some(message) = exec_outcome_message(result) {
            self.show_error(message);
        }
    }
}

} // verus!
