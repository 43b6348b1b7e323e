//! What looks and writes nothing: the status, and every dry run.

use vstd::prelude::*;

use crate::shell::checks::{
    any_exists_spec, bash_primary_spec, check_primary_spec, check_writable_spec,
    chezmoi_strong_signal_spec, dotfile_manager_soft_signal_spec, note_dotfiles_spec,
    note_unresolved_spec, posix_primary_spec,
};
use crate::shell::detect::ActiveReportV;
use crate::shell::env::ShellEnvV;
use crate::shell::install::{
    check_owned_spec, current_text_spec, delete_spec, drop_block_spec, existing_or_empty_spec,
    install_fish_spec, install_posix_spec, install_spec, judge_posix_spec, place_fish_spec,
    place_posix_spec, preview_posix_spec, preview_spec, print_dry_run_diff_spec, remove_owned_spec,
    rewrite_spec, uninstall_fish_spec, uninstall_posix_spec, uninstall_spec, InstallOpts,
    UninstallOpts,
};
use crate::shell::markers::{HitV, ViaV};
use crate::shell::scan::{
    add_dir_spec, add_if_file_spec, expand_glob_spec, find_hits_spec, follow_spec, look_at_spec,
    scan_locations_spec, usual_places_spec, ScanLocationV,
};
use crate::shell::status::{
    candidate_spec, display_canonical_spec, print_active_report_spec, print_candidates_spec,
    print_file_spec, print_fish_files_spec, print_posix_files_spec, rc_stanza_state_spec,
    state_for_spec, status_fish_spec, status_posix_spec, status_spec,
};
use crate::tape::{at_spec, each, holds_spec, Act, Out, RequestV, Trace};

verus! {

/// Does the request change the file system?
pub open spec fn writes(q: RequestV) -> bool {
    ||| q.act == Act::WriteFile
    ||| q.act == Act::CreateFile
    ||| q.act == Act::Rename
    ||| q.act == Act::RemoveFile
    ||| q.act == Act::RemoveDir
    ||| q.act == Act::MakeDirs
    ||| q.act == Act::SetXattr
}

/// What comes next changes no file.
pub open spec fn looks<A>(m: Out<A>) -> bool {
    m matches Out::Ask(q) ==> !writes(q)
}

broadcast proof fn looks_each<X, A>(
    t: Trace,
    xs: Seq<X>,
    acc: A,
    step: spec_fn(Trace, A, X) -> Out<A>,
)
    requires
        forall|t: Trace, a: A, x: X| looks(#[trigger] step(t, a, x)),
    ensures
        looks(#[trigger] each(t, xs, acc, step)),
    decreases xs.len(),
{
    if xs.len() > 0 {
        assert(looks(step(t, acc, xs[0])));
        if let Out::Got(a, u) = step(t, acc, xs[0]) {
            looks_each(u, xs.drop_first(), a, step);
        }
    }
}

broadcast proof fn looks_print_active_report(t: Trace, r: ActiveReportV)
    ensures
        looks(#[trigger] print_active_report_spec(t, r)),
{
    broadcast use looks_each;

    reveal(print_active_report_spec);
}

broadcast proof fn looks_look_at(t: Trace, env: ShellEnvV, loc: ScanLocationV, hits: Seq<HitV>)
    ensures
        looks(#[trigger] look_at_spec(t, env, loc, hits)),
{
    reveal(look_at_spec);
}

broadcast proof fn looks_find_hits(t: Trace, locations: Seq<ScanLocationV>, env: ShellEnvV)
    ensures
        looks(#[trigger] find_hits_spec(t, locations, env)),
{
    broadcast use {looks_look_at, looks_each};

    reveal(find_hits_spec);
}

broadcast proof fn looks_display_canonical(t: Trace, p: Seq<char>)
    ensures
        looks(#[trigger] display_canonical_spec(t, p)),
{
    reveal(display_canonical_spec);
}

broadcast proof fn looks_state_for(t: Trace, path: Seq<char>, desired: Seq<char>)
    ensures
        looks(#[trigger] state_for_spec(t, path, desired)),
{
    reveal(state_for_spec);
}

broadcast proof fn looks_print_file(t: Trace, label: Seq<char>, path: Seq<char>, desired: Seq<char>)
    ensures
        looks(#[trigger] print_file_spec(t, label, path, desired)),
{
    broadcast use {looks_display_canonical, looks_state_for};

    reveal(print_file_spec);
}

broadcast proof fn looks_print_fish_files(t: Trace, env: ShellEnvV, generated: Seq<char>)
    ensures
        looks(#[trigger] print_fish_files_spec(t, env, generated)),
{
    broadcast use {looks_display_canonical, looks_print_file};

    reveal(print_fish_files_spec);
}

broadcast proof fn looks_add_if_file(
    t: Trace,
    locs: Seq<ScanLocationV>,
    path: Seq<char>,
    via: Option<ViaV>,
)
    ensures
        looks(#[trigger] add_if_file_spec(t, locs, path, via)),
{
    reveal(add_if_file_spec);
}

broadcast proof fn looks_expand_glob(t: Trace, pattern: Seq<char>)
    ensures
        looks(#[trigger] expand_glob_spec(t, pattern)),
{
    reveal(expand_glob_spec);
}

broadcast proof fn looks_follow(
    t: Trace,
    env: ShellEnvV,
    primary: Seq<char>,
    base_dir: Seq<char>,
    locs: Seq<ScanLocationV>,
    line_no: nat,
    line: Seq<char>,
)
    ensures
        looks(#[trigger] follow_spec(t, env, primary, base_dir, locs, line_no, line)),
{
    broadcast use {looks_add_if_file, looks_expand_glob, looks_each};

    reveal(follow_spec);
}

broadcast proof fn looks_add_dir(t: Trace, locs: Seq<ScanLocationV>, dir: Seq<char>, ext: Seq<char>)
    ensures
        looks(#[trigger] add_dir_spec(t, locs, dir, ext)),
{
    reveal(add_dir_spec);
}

broadcast proof fn looks_usual_places(
    t: Trace,
    env: ShellEnvV,
    shell: Seq<char>,
    primary: Seq<char>,
)
    ensures
        looks(#[trigger] usual_places_spec(t, env, shell, primary)),
{
    broadcast use looks_add_dir;

    reveal(usual_places_spec);
}

broadcast proof fn looks_scan_locations(
    t: Trace,
    env: ShellEnvV,
    shell: Seq<char>,
    primary: Seq<char>,
)
    ensures
        looks(#[trigger] scan_locations_spec(t, env, shell, primary)),
{
    broadcast use {looks_follow, looks_usual_places, looks_each};

    reveal(scan_locations_spec);
}

broadcast proof fn looks_status_fish(t: Trace, env: ShellEnvV, generated: Seq<char>)
    ensures
        looks(#[trigger] status_fish_spec(t, env, generated)),
{
    broadcast use {looks_find_hits, looks_print_fish_files, looks_scan_locations, looks_each};

    reveal(status_fish_spec);
}

broadcast proof fn looks_bash_primary(t: Trace, env: ShellEnvV)
    ensures
        looks(#[trigger] bash_primary_spec(t, env)),
{
    reveal(bash_primary_spec);
}

broadcast proof fn looks_posix_primary(t: Trace, env: ShellEnvV, shell: Seq<char>)
    ensures
        looks(#[trigger] posix_primary_spec(t, env, shell)),
{
    broadcast use looks_bash_primary;

    reveal(posix_primary_spec);
}

broadcast proof fn looks_candidate(t: Trace, path: Seq<char>)
    ensures
        looks(#[trigger] candidate_spec(t, path)),
{
    reveal(candidate_spec);
}

broadcast proof fn looks_print_candidates(t: Trace, env: ShellEnvV)
    ensures
        looks(#[trigger] print_candidates_spec(t, env)),
{
    broadcast use looks_candidate;

    reveal(print_candidates_spec);
}

broadcast proof fn looks_rc_stanza_state(t: Trace, rc: Seq<char>, stanza: Seq<char>)
    ensures
        looks(#[trigger] rc_stanza_state_spec(t, rc, stanza)),
{
    reveal(rc_stanza_state_spec);
}

broadcast proof fn looks_print_posix_files(
    t: Trace,
    env: ShellEnvV,
    shell: Seq<char>,
    primary: Seq<char>,
    managed: Seq<char>,
    body: Seq<char>,
    stanza: Seq<char>,
)
    ensures
        looks(#[trigger] print_posix_files_spec(t, env, shell, primary, managed, body, stanza)),
{
    broadcast use {
        looks_display_canonical,
        looks_print_candidates,
        looks_print_file,
        looks_rc_stanza_state,
    };

    reveal(print_posix_files_spec);
}

broadcast proof fn looks_status_posix(
    t: Trace,
    env: ShellEnvV,
    shell: Seq<char>,
    generated: Seq<char>,
)
    ensures
        looks(#[trigger] status_posix_spec(t, env, shell, generated)),
{
    broadcast use {
        looks_find_hits,
        looks_posix_primary,
        looks_print_posix_files,
        looks_scan_locations,
        looks_each,
    };

    reveal(status_posix_spec);
}

broadcast proof fn looks_status(
    t: Trace,
    env: ShellEnvV,
    target: Option<Seq<char>>,
    report: ActiveReportV,
    generated: Seq<char>,
)
    ensures
        looks(#[trigger] status_spec(t, env, target, report, generated)),
{
    broadcast use {looks_print_active_report, looks_status_fish, looks_status_posix};

    reveal(status_spec);
}

broadcast proof fn looks_check_owned(t: Trace, path: Seq<char>, label: Seq<char>, force: bool)
    ensures
        looks(#[trigger] check_owned_spec(t, path, label, force)),
{
    reveal(check_owned_spec);
}

broadcast proof fn looks_existing_or_empty(t: Trace, p: Seq<char>)
    ensures
        looks(#[trigger] existing_or_empty_spec(t, p)),
{
    reveal(existing_or_empty_spec);
}

broadcast proof fn looks_print_dry_run_diff(
    t: Trace,
    path: Seq<char>,
    before: Seq<char>,
    after: Seq<char>,
)
    ensures
        looks(#[trigger] print_dry_run_diff_spec(t, path, before, after)),
{
    broadcast use looks_each;

    reveal(print_dry_run_diff_spec);
}

broadcast proof fn looks_preview(t: Trace, path: Seq<char>, body: Seq<char>)
    ensures
        looks(#[trigger] preview_spec(t, path, body)),
{
    broadcast use {looks_existing_or_empty, looks_print_dry_run_diff};

    reveal(preview_spec);
}

broadcast proof fn looks_place_fish(
    t: Trace,
    env: ShellEnvV,
    generated: Seq<char>,
    opts: InstallOpts,
)
    requires
        opts.dry_run,
    ensures
        looks(#[trigger] place_fish_spec(t, env, generated, opts)),
{
    broadcast use {looks_check_owned, looks_preview};

    reveal(place_fish_spec);
}

broadcast proof fn looks_install_fish(
    t: Trace,
    env: ShellEnvV,
    generated: Seq<char>,
    opts: InstallOpts,
)
    requires
        opts.dry_run,
    ensures
        looks(#[trigger] install_fish_spec(t, env, generated, opts)),
{
    broadcast use {looks_find_hits, looks_place_fish, looks_scan_locations};

    reveal(install_fish_spec);
}

broadcast proof fn looks_check_writable(t: Trace, primary: Seq<char>)
    ensures
        looks(#[trigger] check_writable_spec(t, primary)),
{
    reveal(check_writable_spec);
}

broadcast proof fn looks_any_exists(t: Trace, paths: Seq<Seq<char>>)
    ensures
        looks(#[trigger] any_exists_spec(t, paths)),
    decreases paths.len(),
{
    if paths.len() > 0 {
        if let Out::Got(false, u) = holds_spec(t, at_spec(Act::Exists, paths[0])) {
            looks_any_exists(u, paths.drop_first());
        }
    }
}

broadcast proof fn looks_chezmoi_strong_signal(t: Trace, canonical: Seq<char>)
    ensures
        looks(#[trigger] chezmoi_strong_signal_spec(t, canonical)),
{
    broadcast use looks_any_exists;

    reveal(chezmoi_strong_signal_spec);
}

broadcast proof fn looks_dotfile_manager_soft_signal(t: Trace, env: ShellEnvV, canonical: Seq<char>)
    ensures
        looks(#[trigger] dotfile_manager_soft_signal_spec(t, env, canonical)),
{
    reveal(dotfile_manager_soft_signal_spec);
}

broadcast proof fn looks_note_dotfiles(
    t: Trace,
    env: ShellEnvV,
    primary: Seq<char>,
    canonical: Seq<char>,
)
    ensures
        looks(#[trigger] note_dotfiles_spec(t, env, primary, canonical)),
{
    broadcast use looks_dotfile_manager_soft_signal;

    reveal(note_dotfiles_spec);
}

broadcast proof fn looks_check_primary(t: Trace, env: ShellEnvV, primary: Seq<char>, force: bool)
    ensures
        looks(#[trigger] check_primary_spec(t, env, primary, force)),
{
    broadcast use {looks_check_writable, looks_chezmoi_strong_signal, looks_note_dotfiles};

    reveal(check_primary_spec);
}

broadcast proof fn looks_note_unresolved(t: Trace, hits: Seq<HitV>, primary: Seq<char>)
    ensures
        looks(#[trigger] note_unresolved_spec(t, hits, primary)),
{
    broadcast use looks_each;

    reveal(note_unresolved_spec);
}

broadcast proof fn looks_current_text(t: Trace, primary: Seq<char>)
    ensures
        looks(#[trigger] current_text_spec(t, primary)),
{
    reveal(current_text_spec);
}

broadcast proof fn looks_preview_posix(
    t: Trace,
    managed: Seq<char>,
    body: Seq<char>,
    primary: Seq<char>,
    contents: Seq<char>,
    new: Seq<char>,
)
    ensures
        looks(#[trigger] preview_posix_spec(t, managed, body, primary, contents, new)),
{
    broadcast use {looks_existing_or_empty, looks_print_dry_run_diff};

    reveal(preview_posix_spec);
}

broadcast proof fn looks_place_posix(
    t: Trace,
    env: ShellEnvV,
    shell: Seq<char>,
    primary: Seq<char>,
    block: Option<(nat, nat)>,
    generated: Seq<char>,
    dry_run: bool,
)
    requires
        dry_run,
    ensures
        looks(#[trigger] place_posix_spec(t, env, shell, primary, block, generated, dry_run)),
{
    broadcast use {looks_current_text, looks_preview_posix};

    reveal(place_posix_spec);
}

broadcast proof fn looks_judge_posix(
    t: Trace,
    env: ShellEnvV,
    shell: Seq<char>,
    primary: Seq<char>,
    hits: Seq<HitV>,
    generated: Seq<char>,
    opts: InstallOpts,
)
    requires
        opts.dry_run,
    ensures
        looks(#[trigger] judge_posix_spec(t, env, shell, primary, hits, generated, opts)),
{
    broadcast use {looks_note_unresolved, looks_place_posix};

    reveal(judge_posix_spec);
}

broadcast proof fn looks_install_posix(
    t: Trace,
    env: ShellEnvV,
    shell: Seq<char>,
    generated: Seq<char>,
    opts: InstallOpts,
)
    requires
        opts.dry_run,
    ensures
        looks(#[trigger] install_posix_spec(t, env, shell, generated, opts)),
{
    broadcast use {
        looks_check_primary,
        looks_find_hits,
        looks_judge_posix,
        looks_posix_primary,
        looks_scan_locations,
    };

    reveal(install_posix_spec);
}

broadcast proof fn looks_install(
    t: Trace,
    env: ShellEnvV,
    shell: Seq<char>,
    generated: Seq<char>,
    opts: InstallOpts,
)
    requires
        opts.dry_run,
    ensures
        looks(#[trigger] install_spec(t, env, shell, generated, opts)),
{
    broadcast use {looks_install_fish, looks_install_posix};

    reveal(install_spec);
}

broadcast proof fn looks_delete(t: Trace, path: Seq<char>, dry_run: bool, done: Seq<char>)
    requires
        dry_run,
    ensures
        looks(#[trigger] delete_spec(t, path, dry_run, done)),
{
    reveal(delete_spec);
}

broadcast proof fn looks_remove_owned(t: Trace, path: Seq<char>, opts: UninstallOpts, idle: bool)
    requires
        opts.dry_run,
    ensures
        looks(#[trigger] remove_owned_spec(t, path, opts, idle)),
{
    broadcast use looks_delete;

    reveal(remove_owned_spec);
}

broadcast proof fn looks_uninstall_fish(t: Trace, env: ShellEnvV, opts: UninstallOpts)
    requires
        opts.dry_run,
    ensures
        looks(#[trigger] uninstall_fish_spec(t, env, opts)),
{
    broadcast use looks_remove_owned;

    reveal(uninstall_fish_spec);
}

broadcast proof fn looks_rewrite(
    t: Trace,
    primary: Seq<char>,
    contents: Seq<char>,
    after: Seq<char>,
    dry_run: bool,
)
    requires
        dry_run,
    ensures
        looks(#[trigger] rewrite_spec(t, primary, contents, after, dry_run)),
{
    broadcast use looks_print_dry_run_diff;

    reveal(rewrite_spec);
}

broadcast proof fn looks_drop_block(t: Trace, primary: Seq<char>, dry_run: bool)
    requires
        dry_run,
    ensures
        looks(#[trigger] drop_block_spec(t, primary, dry_run)),
{
    broadcast use looks_rewrite;

    reveal(drop_block_spec);
}

broadcast proof fn looks_uninstall_posix(
    t: Trace,
    env: ShellEnvV,
    shell: Seq<char>,
    opts: UninstallOpts,
)
    requires
        opts.dry_run,
    ensures
        looks(#[trigger] uninstall_posix_spec(t, env, shell, opts)),
{
    broadcast use {looks_delete, looks_drop_block, looks_posix_primary};

    reveal(uninstall_posix_spec);
}

broadcast proof fn looks_uninstall(t: Trace, env: ShellEnvV, shell: Seq<char>, opts: UninstallOpts)
    requires
        opts.dry_run,
    ensures
        looks(#[trigger] uninstall_spec(t, env, shell, opts)),
{
    broadcast use {looks_uninstall_fish, looks_uninstall_posix};

    reveal(uninstall_spec);
}

/// The status changes no file.
pub proof fn law_status_changes_nothing(
    t: Trace,
    env: ShellEnvV,
    target: Option<Seq<char>>,
    report: ActiveReportV,
    generated: Seq<char>,
)
    ensures
        looks(status_spec(t, env, target, report, generated)),
{
    broadcast use looks_status;

}

/// A dry run of an installation changes no file, forced or not.
pub proof fn law_dry_install_changes_nothing(
    t: Trace,
    env: ShellEnvV,
    shell: Seq<char>,
    generated: Seq<char>,
    opts: InstallOpts,
)
    requires
        opts.dry_run,
    ensures
        looks(install_spec(t, env, shell, generated, opts)),
{
    broadcast use looks_install;

}

/// A dry run of a removal changes no file, forced or not.
pub proof fn law_dry_uninstall_changes_nothing(
    t: Trace,
    env: ShellEnvV,
    shell: Seq<char>,
    opts: UninstallOpts,
)
    requires
        opts.dry_run,
    ensures
        looks(uninstall_spec(t, env, shell, opts)),
{
    broadcast use looks_uninstall;

}

} // verus!
