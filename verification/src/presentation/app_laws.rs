//! What holds of every step of the console.
use crate::application::container_dto::ContainerDto;
use crate::presentation::app::{
    action_step, confirm_step, container_list_step, container_logs_step, details_step,
    exec_dialog_step, filter_key_step, image_list_step, key_step, main_menu_step, menu_down,
    menu_up, screen_step, selected_container_of, selected_stack_container_of,
    stack_containers_step, stack_list_step, volume_list_step, App, AppEffect, ConfirmAction,
    ContainerOperation, Operation, Screen, StackOperation,
};
use crate::presentation::container_presenter::{container_matches, filtered_containers_of};
use crate::presentation::exec::{shell_row_above, shell_row_below};
use crate::presentation::keys::{key_action, AppAction, KeyInput};
use crate::presentation::selection::{
    law_selection_stays_in_range, selection_in_range, TableSelection,
};
use vstd::prelude::*;

verus! {

/// A table's selection fits its rows: it counts them all and names one of
/// them, or nothing.
pub open spec fn fits(sel: TableSelection, rows: nat) -> bool {
    sel.items_count == rows && selection_in_range(sel)
}

/// Every list of the console has a selection that fits the rows it shows.
pub open spec fn lists_consistent(a: App) -> bool {
    &&& fits(a.container_presenter.selection, a.container_presenter.visible().len())
    &&& fits(a.volume_presenter.selection, a.volume_presenter.visible().len())
    &&& fits(a.image_presenter.selection, a.image_presenter.visible().len())
    &&& fits(a.stack_presenter.selection, a.stack_presenter.visible().len())
    &&& fits(a.stack_presenter.container_selection, a.stack_presenter.stack_containers@.len())
}

/// Work that removes something: a deletion, the removal of a stack's
/// containers, or a prune.
pub open spec fn destructive(r: AppEffect) -> bool {
    match r {
        AppEffect::Perform { operation, .. } => match operation {
            Operation::Container { op, .. } => op is Delete,
            Operation::DeleteVolume { .. } => true,
            Operation::DeleteImage { .. } => true,
            Operation::Stack { op, .. } => op == StackOperation::RemoveAll,
        },
        AppEffect::Prune(_) => true,
        _ => false,
    }
}

/// Filtering two lists that agree, row by row, on what the filter looks
/// at lets through as many rows of each.
pub proof fn lemma_filter_len_agrees<A>(
    s1: Seq<A>,
    s2: Seq<A>,
    p1: spec_fn(A) -> bool,
    p2: spec_fn(A) -> bool,
)
    requires
        s1.len() == s2.len(),
        forall|k: int| 0 <= k < s1.len() ==> p1(#[trigger] s1[k]) == p2(s2[k]),
    ensures
        s1.filter(p1).len() == s2.filter(p2).len(),
    decreases s1.len(),
{
    reveal_with_fuel(Seq::filter, 1);
    if s1.len() > 0 {
        assert forall|k: int| 0 <= k < s1.drop_last().len() implies p1(
            #[trigger] s1.drop_last()[k],
        ) == p2(s2.drop_last()[k]) by {
            assert(s1.drop_last()[k] == s1[k]);
            assert(s2.drop_last()[k] == s2[k]);
        }
        lemma_filter_len_agrees(s1.drop_last(), s2.drop_last(), p1, p2);
        assert(p1(s1.last()) == p2(s2.last()));
    }
}

/// Changing the statistics of listed containers changes no row a filter
/// shows: the same number of containers pass any filter.
pub proof fn lemma_stats_keep_shown_rows(cs1: Seq<ContainerDto>, cs2: Seq<ContainerDto>, filter: Seq<char>)
    requires
        cs1.len() == cs2.len(),
        forall|k: int|
            0 <= k < cs1.len() ==> (#[trigger] cs1[k]).name@ == cs2[k].name@ && cs1[k].image@
                == cs2[k].image@,
    ensures
        filtered_containers_of(cs1, filter).len() == filtered_containers_of(cs2, filter).len(),
{
    if filter.len() > 0 {
        let p = |c: ContainerDto| container_matches(c, filter);
        lemma_filter_len_agrees(cs1, cs2, p, p);
    }
}

/// Moving up or down keeps a fitting selection fitting.
pub proof fn lemma_moves_fit(sel: TableSelection, rows: nat)
    requires
        fits(sel, rows),
    ensures
        fits(crate::presentation::selection::moved_up(sel), rows),
        fits(crate::presentation::selection::moved_down(sel), rows),
{
    law_selection_stays_in_range(sel, sel.items_count, None);
}

/// A selection brought to a row count fits that many rows.
pub proof fn lemma_resized_fits(sel: TableSelection, rows: nat)
    requires
        rows <= usize::MAX,
    ensures
        fits(crate::presentation::selection::resized(sel, rows), rows),
{
    law_selection_stays_in_range(
        TableSelection { selected: None, items_count: 0 },
        rows as usize,
        None,
    );
}

/// A list held in a vector has at most `usize::MAX` rows, and a filter
/// shows no more rows than the list has.
pub proof fn lemma_rows_bounded(a: App)
    ensures
        a.container_presenter.containers@.len() <= usize::MAX,
        a.container_presenter.visible().len() <= a.container_presenter.containers@.len(),
        a.volume_presenter.volumes@.len() <= usize::MAX,
        a.volume_presenter.visible().len() <= a.volume_presenter.volumes@.len(),
        a.image_presenter.images@.len() <= usize::MAX,
        a.image_presenter.visible().len() <= a.image_presenter.images@.len(),
        a.stack_presenter.stacks@.len() <= usize::MAX,
        a.stack_presenter.visible().len() <= a.stack_presenter.stacks@.len(),
        a.stack_presenter.stack_containers@.len() <= usize::MAX,
{
    vstd::std_specs::vec::axiom_spec_len(&a.container_presenter.containers);
    vstd::std_specs::vec::axiom_spec_len(&a.volume_presenter.volumes);
    vstd::std_specs::vec::axiom_spec_len(&a.image_presenter.images);
    vstd::std_specs::vec::axiom_spec_len(&a.stack_presenter.stacks);
    vstd::std_specs::vec::axiom_spec_len(&a.stack_presenter.stack_containers);
    crate::presentation::container_presenter::law_filter_shows_a_part(
        a.container_presenter.containers@,
        a.container_presenter.filter.value@,
    );
    crate::presentation::volume_presenter::law_filter_shows_a_part(
        a.volume_presenter.volumes@,
        a.volume_presenter.filter.value@,
    );
    crate::presentation::image_presenter::law_filter_shows_a_part(
        a.image_presenter.images@,
        a.image_presenter.filter.value@,
    );
    crate::presentation::stack_presenter::law_filter_shows_a_part(
        a.stack_presenter.stacks@,
        a.stack_presenter.filter.value@,
    );
}

/// Every action keeps every list's selection fitting the rows it shows.
pub proof fn law_actions_keep_lists_consistent(a: App, b: App, action: AppAction, r: AppEffect)
    requires
        lists_consistent(a),
        action_step(a, b, action, r),
    ensures
        lists_consistent(b),
{
    let cp = a.container_presenter;
    lemma_rows_bounded(a);
    lemma_rows_bounded(b);
    lemma_moves_fit(cp.selection, cp.visible().len());
    lemma_moves_fit(a.volume_presenter.selection, a.volume_presenter.visible().len());
    lemma_moves_fit(a.image_presenter.selection, a.image_presenter.visible().len());
    lemma_moves_fit(a.stack_presenter.selection, a.stack_presenter.visible().len());
    lemma_moves_fit(
        a.stack_presenter.container_selection,
        a.stack_presenter.stack_containers@.len(),
    );
    if a.popup_message is None && a.confirm_dialog is None && a.exec_shell_dialog is None {
        if a.screen == Screen::ContainerList && action == AppAction::Back {
            let q = b.container_presenter;
            assert forall|k: int| 0 <= k < cp.containers@.len() implies (
            #[trigger] cp.containers@[k]).name@ == q.containers@[k].name@
                && cp.containers@[k].image@ == q.containers@[k].image@ by {
                assert(q.containers@[k] == (ContainerDto {
                    runtime_stats: None,
                    ..cp.containers@[k]
                }));
            }
            lemma_stats_keep_shown_rows(cp.containers@, q.containers@, cp.filter.value@);
        }
        if a.screen == Screen::StackList && action == AppAction::Select {
            vstd::std_specs::vec::axiom_spec_len(
                &crate::presentation::app::selected_stack_of(a.stack_presenter)->0.containers,
            );
            lemma_resized_fits(
                a.stack_presenter.container_selection,
                crate::presentation::app::selected_stack_of(a.stack_presenter)->0.containers@.len(),
            );
        }
        if a.screen == Screen::StackContainers && action == AppAction::Back {
            lemma_resized_fits(a.stack_presenter.container_selection, 0);
        }
    }
}

/// Every key press keeps every list's selection fitting the rows it shows.
pub proof fn law_keys_keep_lists_consistent(a: App, b: App, key: KeyInput, r: AppEffect)
    requires
        lists_consistent(a),
        key_step(a, b, key, r),
    ensures
        lists_consistent(b),
{
    match key_action(key) {
        Some(action) => {
            if action_step(a, b, action, r) {
                law_actions_keep_lists_consistent(a, b, action, r);
            }
        },
        None => {},
    }
    let cp = a.container_presenter;
    let bp = b.container_presenter;
    lemma_rows_bounded(a);
    lemma_rows_bounded(b);
    lemma_resized_fits(cp.selection, bp.visible().len());
    lemma_resized_fits(cp.selection, cp.containers@.len());
    lemma_resized_fits(a.volume_presenter.selection, b.volume_presenter.visible().len());
    lemma_resized_fits(a.volume_presenter.selection, a.volume_presenter.volumes@.len());
    lemma_resized_fits(a.image_presenter.selection, b.image_presenter.visible().len());
    lemma_resized_fits(a.image_presenter.selection, a.image_presenter.images@.len());
    lemma_resized_fits(a.stack_presenter.selection, b.stack_presenter.visible().len());
    lemma_resized_fits(a.stack_presenter.selection, a.stack_presenter.stacks@.len());
}

/// Nothing is deleted, removed or pruned but by answering "yes" to a
/// confirmation dialog: the only action that asks for such work is Enter
/// on an open dialog with "yes" selected, and it closes the dialog.
pub proof fn law_destructive_work_needs_confirmation(a: App, b: App, action: AppAction, r: AppEffect)
    requires
        action_step(a, b, action, r),
        destructive(r),
    ensures
        a.popup_message is None,
        a.confirm_dialog matches Some((_, yes)) && yes,
        action == AppAction::Select,
        b.confirm_dialog is None,
{
}

/// The same, for key presses: only Enter on a dialog with "yes" selected
/// leads to a deletion, a removal or a prune.
pub proof fn law_destructive_key_needs_confirmation(a: App, b: App, key: KeyInput, r: AppEffect)
    requires
        key_step(a, b, key, r),
        destructive(r),
    ensures
        key_action(key) == Some(AppAction::Select),
        a.confirm_dialog matches Some((_, yes)) && yes,
        b.confirm_dialog is None,
{
    match key_action(key) {
        Some(action) => law_destructive_work_needs_confirmation(a, b, action, r),
        None => {},
    }
}

/// A pop-up message goes away at the next bound key, and that key does
/// nothing else; an unbound key leaves everything as it is.
pub proof fn law_any_key_dismisses_popup(a: App, b: App, key: KeyInput, r: AppEffect)
    requires
        a.popup_message is Some,
        key_step(a, b, key, r),
    ensures
        r == AppEffect::Nothing,
        key_action(key) is Some ==> b == (App { popup_message: None, ..a }),
        key_action(key) is None ==> b == a,
{
}

/// Moving down in the main menu undoes moving up, and the other way round.
pub proof fn law_menu_moves_undo(selected: Option<usize>)
    requires
        selected matches Some(i) ==> i <= 4,
    ensures
        menu_down(menu_up(selected)) == selected,
        menu_up(menu_down(selected)) == selected,
{
}

/// In the shell dialog, moving up undoes moving down, and moving down twice
/// comes back to the same row.
pub proof fn law_shell_rows_cycle(selected: Option<usize>)
    requires
        selected matches Some(i) && i <= 1,
    ensures
        shell_row_above(shell_row_below(selected)) == selected,
        shell_row_below(shell_row_above(selected)) == selected,
        shell_row_below(shell_row_below(selected)) == selected,
{
}

/// Nothing lies over the screen: no pop-up and no dialog.
pub open spec fn unobstructed(a: App) -> bool {
    a.popup_message is None && a.confirm_dialog is None && a.exec_shell_dialog is None
}

/// The identifier of the selected row of the container list or of the
/// stack container list, and whether that container can be stopped and
/// whether it can be started.
pub open spec fn selected_row(a: App) -> Option<(Seq<char>, bool, bool)> {
    if a.screen == Screen::ContainerList {
        match selected_container_of(a.container_presenter) {
            Some(c) => Some((c.id@, c.can_stop, c.can_start)),
            None => None,
        }
    } else if a.screen == Screen::StackContainers {
        match selected_stack_container_of(a.stack_presenter) {
            Some(c) => Some((c.id@, c.can_stop, c.can_start)),
            None => None,
        }
    } else {
        None
    }
}

/// On either container screen with nothing over it, start/stop asks to
/// stop the selected container when it can be stopped, to start it when it
/// can only be started, and for nothing otherwise; the console itself
/// stays as it is.
pub proof fn law_start_stop_toggles_the_selected_container(a: App, b: App, r: AppEffect)
    requires
        a.screen == Screen::ContainerList || a.screen == Screen::StackContainers,
        unobstructed(a),
        action_step(a, b, AppAction::StartStop, r),
    ensures
        b == a,
        match selected_row(a) {
            Some((id, can_stop, can_start)) => if can_stop {
                r matches AppEffect::Perform {
                    operation: Operation::Container { op: ContainerOperation::Stop, container_id },
                    ..
                } && container_id@ == id
            } else if can_start {
                r matches AppEffect::Perform {
                    operation: Operation::Container { op: ContainerOperation::Start, container_id },
                    ..
                } && container_id@ == id
            } else {
                r == AppEffect::Nothing
            },
            None => r == AppEffect::Nothing,
        },
{
}

/// On either container screen with nothing over it, deleting the selected
/// container opens a confirmation whose force flag is whether the
/// container can be stopped (is active), with "yes" preselected; Enter then
/// deletes that container, forced exactly when it is active, and closes
/// the dialog.
pub proof fn law_delete_forces_exactly_active_containers(
    a: App,
    b: App,
    r1: AppEffect,
    c: App,
    r2: AppEffect,
)
    requires
        a.screen == Screen::ContainerList || a.screen == Screen::StackContainers,
        unobstructed(a),
        selected_row(a) is Some,
        action_step(a, b, AppAction::Delete, r1),
        action_step(b, c, AppAction::Select, r2),
    ensures
        r1 == AppEffect::Nothing,
        b.confirm_dialog == Some((ConfirmAction::DeleteContainer((selected_row(a)->0).1), true)),
        r2 matches AppEffect::Perform {
            operation: Operation::Container { op: ContainerOperation::Delete(force), container_id },
            ..
        } && force == (selected_row(a)->0).1 && container_id@ == (selected_row(a)->0).0,
        c.confirm_dialog is None,
{
    assert(selected_row(b) == selected_row(a));
}

} // verus!
