//! The installation self-check run at start-up: required plugins and asset
//! folders are looked for, conflicting leftovers are offered for deletion,
//! and the player is told what was found. On the Ryujinx emulator, where
//! dialogs cannot be shown, everything is logged instead.
use vstd::prelude::*;

verus! {

/// The files and folders that the self-check looks for.
#[derive(Clone, Copy, Debug, PartialEq, Eq)]
pub enum ModFile {
    SmashlineHook,
    Arcropolis,
    NroHook,
    SmashlineDevelopmentHook,
    DevelopmentNro,
    DevFolder,
    StaleHdr,
    HdrAssets,
    HdrStages,
}

/// Where the file or folder lives on the SD card.
pub open spec fn mod_file_path(f: ModFile) -> Seq<char> {
    match f {
        ModFile::SmashlineHook =>
            "sd:/atmosphere/contents/01006a800016e000/romfs/skyline/plugins/libsmashline_hook.nro"@,
        ModFile::Arcropolis =>
            "sd:/atmosphere/contents/01006a800016e000/romfs/skyline/plugins/libarcropolis.nro"@,
        ModFile::NroHook =>
            "sd:/atmosphere/contents/01006a800016e000/romfs/skyline/plugins/libnro_hook.nro"@,
        ModFile::SmashlineDevelopmentHook =>
            "sd:/atmosphere/contents/01006a800016e000/romfs/skyline/plugins/libsmashline_hook_development.nro"@,
        ModFile::DevelopmentNro =>
            "sd:/atmosphere/contents/01006a800016e000/romfs/smashline/development.nro"@,
        ModFile::DevFolder => "sd:/ultimate/mods/hdr-dev/"@,
        ModFile::StaleHdr =>
            "sd:/atmosphere/contents/01006a800016e000/romfs/skyline/plugins/libhdr.nro"@,
        ModFile::HdrAssets => "sd:/ultimate/mods/hdr-assets/"@,
        ModFile::HdrStages => "sd:/ultimate/mods/hdr-stages/"@,
    }
}

/// Whether the entry is a folder rather than a file.
pub open spec fn mod_file_is_directory(f: ModFile) -> bool {
    f == ModFile::DevFolder || f == ModFile::HdrAssets || f == ModFile::HdrStages
}

impl ModFile {
    /// Where the file or folder lives on the SD card.
    pub fn path(&self) -> (path: &'static str)
        ensures
            path@ == mod_file_path(*self),
    {
        match self {
            ModFile::SmashlineHook =>
                "sd:/atmosphere/contents/01006a800016e000/romfs/skyline/plugins/libsmashline_hook.nro",
            ModFile::Arcropolis =>
                "sd:/atmosphere/contents/01006a800016e000/romfs/skyline/plugins/libarcropolis.nro",
            ModFile::NroHook =>
                "sd:/atmosphere/contents/01006a800016e000/romfs/skyline/plugins/libnro_hook.nro",
            ModFile::SmashlineDevelopmentHook =>
                "sd:/atmosphere/contents/01006a800016e000/romfs/skyline/plugins/libsmashline_hook_development.nro",
            ModFile::DevelopmentNro =>
                "sd:/atmosphere/contents/01006a800016e000/romfs/smashline/development.nro",
            ModFile::DevFolder => "sd:/ultimate/mods/hdr-dev/",
            ModFile::StaleHdr =>
                "sd:/atmosphere/contents/01006a800016e000/romfs/skyline/plugins/libhdr.nro",
            ModFile::HdrAssets => "sd:/ultimate/mods/hdr-assets/",
            ModFile::HdrStages => "sd:/ultimate/mods/hdr-stages/",
        }
    }

    /// Whether the entry is a folder rather than a file.
    pub fn is_directory(&self) -> (dir: bool)
        ensures
            dir == mod_file_is_directory(*self),
    {
        match self {
            ModFile::DevFolder | ModFile::HdrAssets | ModFile::HdrStages => true,
            _ => false,
        }
    }
}

/// What the self-check found: the platform, and which entries exist.
#[derive(Clone, Copy, Debug)]
pub struct InstallProbe {
    pub on_ryujinx: bool,
    pub smashline_hook: bool,
    pub arcropolis: bool,
    pub nro_hook: bool,
    pub smashline_development_hook: bool,
    pub development_nro: bool,
    pub dev_folder: bool,
    pub stale_hdr: bool,
    pub hdr_assets: bool,
    pub hdr_stages: bool,
}

/// The texts that the self-check logs or shows.
#[derive(Clone, Copy, Debug, PartialEq, Eq)]
pub enum Message {
    SmashlineHookPresent,
    SmashlineHookMissing,
    ArcropolisPresent,
    ArcropolisMissing,
    NroHookPresent,
    NroHookMissing,
    SmashlineDevelopmentConflict,
    SmashlineDevelopmentWarning,
    DevelopmentNroMistake,
    StaleHdrConflict,
    StaleHdrWarning,
    HdrAssetsPresent,
    HdrAssetsMissing,
    HdrStagesPresent,
    HdrStagesMissing,
    ValidationComplete,
}

/// The text of a message.
pub open spec fn message_text(m: Message) -> Seq<char> {
    match m {
        Message::SmashlineHookPresent => "libsmashline_hook.nro is present"@,
        Message::SmashlineHookMissing => "No libsmashline_hook.nro found! We will likely crash."@,
        Message::ArcropolisPresent => "libarcropolis.nro is present"@,
        Message::ArcropolisMissing =>
            "No libarcropolis.nro found! We will either crash, or game functionality will be broken."@,
        Message::NroHookPresent => "libnro_hook.nro is present"@,
        Message::NroHookMissing => "No libnro_hook.nro found! We will likely crash."@,
        Message::SmashlineDevelopmentConflict =>
            "libsmashline_hook_development.nro found! This will conflict with hdr! Expect a crash soon."@,
        Message::SmashlineDevelopmentWarning =>
            "Warning, we will likely crash soon because of this conflict."@,
        Message::DevelopmentNroMistake =>
            "development.nro found, but there is no hdr-dev folder! This is likely a mistake."@,
        Message::StaleHdrConflict =>
            "stale libhdr.nro found! This will conflict with your newer hdr! Expect a crash soon."@,
        Message::StaleHdrWarning =>
            "Warning, we will likely crash soon or have undefined behavior because of this conflict."@,
        Message::HdrAssetsPresent => "hdr-assets are present"@,
        Message::HdrAssetsMissing =>
            "No hdr-assets found! This installation is incomplete. Please install the full package."@,
        Message::HdrStagesPresent => "hdr-stages are present"@,
        Message::HdrStagesMissing =>
            "No hdr-stages found! This installation is incomplete. Please install the full package."@,
        Message::ValidationComplete => "simple validation complete."@,
    }
}

impl Message {
    /// The text of the message.
    pub fn text(&self) -> (text: &'static str)
        ensures
            text@ == message_text(*self),
    {
        match self {
            Message::SmashlineHookPresent => "libsmashline_hook.nro is present",
            Message::SmashlineHookMissing => "No libsmashline_hook.nro found! We will likely crash.",
            Message::ArcropolisPresent => "libarcropolis.nro is present",
            Message::ArcropolisMissing =>
                "No libarcropolis.nro found! We will either crash, or game functionality will be broken.",
            Message::NroHookPresent => "libnro_hook.nro is present",
            Message::NroHookMissing => "No libnro_hook.nro found! We will likely crash.",
            Message::SmashlineDevelopmentConflict =>
                "libsmashline_hook_development.nro found! This will conflict with hdr! Expect a crash soon.",
            Message::SmashlineDevelopmentWarning =>
                "Warning, we will likely crash soon because of this conflict.",
            Message::DevelopmentNroMistake =>
                "development.nro found, but there is no hdr-dev folder! This is likely a mistake.",
            Message::StaleHdrConflict =>
                "stale libhdr.nro found! This will conflict with your newer hdr! Expect a crash soon.",
            Message::StaleHdrWarning =>
                "Warning, we will likely crash soon or have undefined behavior because of this conflict.",
            Message::HdrAssetsPresent => "hdr-assets are present",
            Message::HdrAssetsMissing =>
                "No hdr-assets found! This installation is incomplete. Please install the full package.",
            Message::HdrStagesPresent => "hdr-stages are present",
            Message::HdrStagesMissing =>
                "No hdr-stages found! This installation is incomplete. Please install the full package.",
            Message::ValidationComplete => "simple validation complete.",
        }
    }
}

/// A yes/no question that offers to delete a conflicting file.
#[derive(Clone, Copy, Debug, PartialEq, Eq)]
pub enum Prompt {
    DeleteSmashlineDevelopmentHook,
    DeleteDevelopmentNro,
    DeleteStaleHdr,
}

/// The question asked.
pub open spec fn prompt_question(p: Prompt) -> Seq<char> {
    match p {
        Prompt::DeleteSmashlineDevelopmentHook =>
            "libsmashline_hook_development.nro found! This will conflict with hdr! Would you like to delete it?"@,
        Prompt::DeleteDevelopmentNro =>
            "development.nro found, but there is no hdr-dev folder! This is likely a mistake. Would you like to delete it?"@,
        Prompt::DeleteStaleHdr =>
            "Stale libhdr.nro found in atmos/contents! This will conflict with new hdr packaging! Would you like to delete it?"@,
    }
}

/// The file that the question offers to delete.
pub open spec fn prompt_file(p: Prompt) -> ModFile {
    match p {
        Prompt::DeleteSmashlineDevelopmentHook => ModFile::SmashlineDevelopmentHook,
        Prompt::DeleteDevelopmentNro => ModFile::DevelopmentNro,
        Prompt::DeleteStaleHdr => ModFile::StaleHdr,
    }
}

/// The warning shown when the player keeps the file, if any.
pub open spec fn prompt_decline_warning(p: Prompt) -> Option<Message> {
    match p {
        Prompt::DeleteSmashlineDevelopmentHook => Some(Message::SmashlineDevelopmentWarning),
        Prompt::DeleteDevelopmentNro => None,
        Prompt::DeleteStaleHdr => Some(Message::StaleHdrWarning),
    }
}

impl Prompt {
    /// The question asked.
    pub fn question(&self) -> (text: &'static str)
        ensures
            text@ == prompt_question(*self),
    {
        match self {
            Prompt::DeleteSmashlineDevelopmentHook =>
                "libsmashline_hook_development.nro found! This will conflict with hdr! Would you like to delete it?",
            Prompt::DeleteDevelopmentNro =>
                "development.nro found, but there is no hdr-dev folder! This is likely a mistake. Would you like to delete it?",
            Prompt::DeleteStaleHdr =>
                "Stale libhdr.nro found in atmos/contents! This will conflict with new hdr packaging! Would you like to delete it?",
        }
    }

    /// The file that the question offers to delete.
    pub fn file(&self) -> (f: ModFile)
        ensures
            f == prompt_file(*self),
    {
        match self {
            Prompt::DeleteSmashlineDevelopmentHook => ModFile::SmashlineDevelopmentHook,
            Prompt::DeleteDevelopmentNro => ModFile::DevelopmentNro,
            Prompt::DeleteStaleHdr => ModFile::StaleHdr,
        }
    }
}

/// One thing for the caller to do.
#[derive(Clone, Copy, Debug, PartialEq, Eq)]
pub enum InstallAction {
    /// Write the message to the log.
    Print(Message),
    /// Show the message in a dialog with an OK button.
    Dialog(Message),
    /// Ask the yes/no question, then carry out `answer_prompt` of the reply.
    Ask(Prompt),
    /// Delete the file.
    RemoveFile(ModFile),
    /// Ask the system to relaunch the game.
    Relaunch,
}

/// The report on an entry that should be there.
#[verifier::opaque]
pub open spec fn presence_report(
    found: bool,
    on_ryujinx: bool,
    present: Message,
    missing: Message,
) -> Seq<InstallAction> {
    if found {
        seq![InstallAction::Print(present)]
    } else if on_ryujinx {
        seq![InstallAction::Print(missing)]
    } else {
        seq![InstallAction::Dialog(missing)]
    }
}

/// The report on a conflicting entry: logged on the emulator, otherwise
/// offered for deletion.
#[verifier::opaque]
pub open spec fn conflict_report(
    found: bool,
    on_ryujinx: bool,
    notice: Message,
    prompt: Prompt,
) -> Seq<InstallAction> {
    if !found {
        Seq::empty()
    } else if on_ryujinx {
        seq![InstallAction::Print(notice)]
    } else {
        seq![InstallAction::Ask(prompt)]
    }
}

/// Everything the self-check does, in order, given what it found.
pub open spec fn validation_plan(p: InstallProbe) -> Seq<InstallAction> {
    presence_report(
        p.smashline_hook,
        p.on_ryujinx,
        Message::SmashlineHookPresent,
        Message::SmashlineHookMissing,
    ) + presence_report(
        p.arcropolis,
        p.on_ryujinx,
        Message::ArcropolisPresent,
        Message::ArcropolisMissing,
    ) + presence_report(p.nro_hook, p.on_ryujinx, Message::NroHookPresent, Message::NroHookMissing)
        + conflict_report(
        p.smashline_development_hook,
        p.on_ryujinx,
        Message::SmashlineDevelopmentConflict,
        Prompt::DeleteSmashlineDevelopmentHook,
    ) + conflict_report(
        p.development_nro && !p.dev_folder,
        p.on_ryujinx,
        Message::DevelopmentNroMistake,
        Prompt::DeleteDevelopmentNro,
    ) + conflict_report(
        p.stale_hdr,
        p.on_ryujinx,
        Message::StaleHdrConflict,
        Prompt::DeleteStaleHdr,
    ) + presence_report(
        p.hdr_assets,
        p.on_ryujinx,
        Message::HdrAssetsPresent,
        Message::HdrAssetsMissing,
    ) + presence_report(
        p.hdr_stages,
        p.on_ryujinx,
        Message::HdrStagesPresent,
        Message::HdrStagesMissing,
    ) + seq![InstallAction::Print(Message::ValidationComplete)]
}

fn push_presence_report(
    plan: &mut Vec<InstallAction>,
    found: bool,
    on_ryujinx: bool,
    present: Message,
    missing: Message,
)
    ensures
        final(plan)@ == old(plan)@ + presence_report(found, on_ryujinx, present, missing),
{
    reveal(presence_report);
    if found {
        plan.push(InstallAction::Print(present));
    } else if on_ryujinx {
        plan.push(InstallAction::Print(missing));
    } else {
        plan.push(InstallAction::Dialog(missing));
    }
    assert(plan@ =~= old(plan)@ + presence_report(found, on_ryujinx, present, missing));
}

fn push_conflict_report(
    plan: &mut Vec<InstallAction>,
    found: bool,
    on_ryujinx: bool,
    notice: Message,
    prompt: Prompt,
)
    ensures
        final(plan)@ == old(plan)@ + conflict_report(found, on_ryujinx, notice, prompt),
{
    reveal(conflict_report);
    if found {
        if on_ryujinx {
            plan.push(InstallAction::Print(notice));
        } else {
            plan.push(InstallAction::Ask(prompt));
        }
    }
    assert(plan@ =~= old(plan)@ + conflict_report(found, on_ryujinx, notice, prompt));
}

/// The self-check: what to log, show and ask, in order, given what was
/// found on the SD card and whether the game runs on the emulator.
pub fn quick_validate_install(probe: &InstallProbe) -> (plan: Vec<InstallAction>)
    ensures
        plan@ == validation_plan(*probe),
{
    let r = probe.on_ryujinx;
    let mut plan: Vec<InstallAction> = Vec::new();
    push_presence_report(
        &mut plan,
        probe.smashline_hook,
        r,
        Message::SmashlineHookPresent,
        Message::SmashlineHookMissing,
    );
    let ghost first = presence_report(
        probe.smashline_hook,
        r,
        Message::SmashlineHookPresent,
        Message::SmashlineHookMissing,
    );
    assert(plan@ =~= first);
    push_presence_report(
        &mut plan,
        probe.arcropolis,
        r,
        Message::ArcropolisPresent,
        Message::ArcropolisMissing,
    );
    push_presence_report(
        &mut plan,
        probe.nro_hook,
        r,
        Message::NroHookPresent,
        Message::NroHookMissing,
    );
    push_conflict_report(
        &mut plan,
        probe.smashline_development_hook,
        r,
        Message::SmashlineDevelopmentConflict,
        Prompt::DeleteSmashlineDevelopmentHook,
    );
    push_conflict_report(
        &mut plan,
        probe.development_nro && !probe.dev_folder,
        r,
        Message::DevelopmentNroMistake,
        Prompt::DeleteDevelopmentNro,
    );
    push_conflict_report(
        &mut plan,
        probe.stale_hdr,
        r,
        Message::StaleHdrConflict,
        Prompt::DeleteStaleHdr,
    );
    push_presence_report(
        &mut plan,
        probe.hdr_assets,
        r,
        Message::HdrAssetsPresent,
        Message::HdrAssetsMissing,
    );
    push_presence_report(
        &mut plan,
        probe.hdr_stages,
        r,
        Message::HdrStagesPresent,
        Message::HdrStagesMissing,
    );
    let ghost before_last = plan@;
    plan.push(InstallAction::Print(Message::ValidationComplete));
    assert(plan@ =~= before_last + seq![InstallAction::Print(Message::ValidationComplete)]);
    plan
}

/// What follows the player's reply to a deletion question.
pub open spec fn spec_answer_prompt(p: Prompt, delete: bool) -> Seq<InstallAction> {
    if delete {
        seq![InstallAction::RemoveFile(prompt_file(p)), InstallAction::Relaunch]
    } else {
        match prompt_decline_warning(p) {
            Some(m) => seq![InstallAction::Dialog(m)],
            None => Seq::empty(),
        }
    }
}

/// What follows the player's reply (`delete`) to a deletion question: the
/// file is deleted and the game relaunched, or a warning may be shown.
pub fn answer_prompt(prompt: Prompt, delete: bool) -> (actions: Vec<InstallAction>)
    ensures
        actions@ == spec_answer_prompt(prompt, delete),
{
    let mut actions: Vec<InstallAction> = Vec::new();
    if delete {
        actions.push(InstallAction::RemoveFile(prompt.file()));
        actions.push(InstallAction::Relaunch);
    } else {
        match prompt {
            Prompt::DeleteSmashlineDevelopmentHook => {
                actions.push(InstallAction::Dialog(Message::SmashlineDevelopmentWarning));
            },
            Prompt::DeleteDevelopmentNro => {},
            Prompt::DeleteStaleHdr => {
                actions.push(InstallAction::Dialog(Message::StaleHdrWarning));
            },
        }
    }
    assert(actions@ =~= spec_answer_prompt(prompt, delete));
    actions
}

/// Every action only writes to the log.
pub open spec fn only_logs(actions: Seq<InstallAction>) -> bool {
    forall|i: int| 0 <= i < actions.len() ==> #[trigger] actions[i] is Print
}

proof fn lemma_only_logs_append(a: Seq<InstallAction>, b: Seq<InstallAction>)
    requires
        only_logs(a),
        only_logs(b),
    ensures
        only_logs(a + b),
{
    assert forall|i: int| 0 <= i < (a + b).len() implies #[trigger] (a + b)[i] is Print by {
        if i < a.len() {
            assert((a + b)[i] == a[i]);
        } else {
            assert((a + b)[i] == b[i - a.len()]);
        }
    }
}

proof fn lemma_plan_only_logs(p: InstallProbe)
    requires
        p.on_ryujinx || (p.smashline_hook && p.arcropolis && p.nro_hook
            && !p.smashline_development_hook && !(p.development_nro && !p.dev_folder)
            && !p.stale_hdr && p.hdr_assets && p.hdr_stages),
    ensures
        only_logs(validation_plan(p)),
{
    reveal(presence_report);
    reveal(conflict_report);
    let r = p.on_ryujinx;
    let s1 = presence_report(
        p.smashline_hook,
        r,
        Message::SmashlineHookPresent,
        Message::SmashlineHookMissing,
    );
    let s2 = presence_report(
        p.arcropolis,
        r,
        Message::ArcropolisPresent,
        Message::ArcropolisMissing,
    );
    let s3 = presence_report(p.nro_hook, r, Message::NroHookPresent, Message::NroHookMissing);
    let s4 = conflict_report(
        p.smashline_development_hook,
        r,
        Message::SmashlineDevelopmentConflict,
        Prompt::DeleteSmashlineDevelopmentHook,
    );
    let s5 = conflict_report(
        p.development_nro && !p.dev_folder,
        r,
        Message::DevelopmentNroMistake,
        Prompt::DeleteDevelopmentNro,
    );
    let s6 = conflict_report(p.stale_hdr, r, Message::StaleHdrConflict, Prompt::DeleteStaleHdr);
    let s7 = presence_report(
        p.hdr_assets,
        r,
        Message::HdrAssetsPresent,
        Message::HdrAssetsMissing,
    );
    let s8 = presence_report(
        p.hdr_stages,
        r,
        Message::HdrStagesPresent,
        Message::HdrStagesMissing,
    );
    let s9 = seq![InstallAction::Print(Message::ValidationComplete)];
    assert(only_logs(s1));
    assert(only_logs(s2));
    assert(only_logs(s3));
    assert(only_logs(s4));
    assert(only_logs(s5));
    assert(only_logs(s6));
    assert(only_logs(s7));
    assert(only_logs(s8));
    assert(only_logs(s9));
    lemma_only_logs_append(s1, s2);
    lemma_only_logs_append(s1 + s2, s3);
    lemma_only_logs_append(s1 + s2 + s3, s4);
    lemma_only_logs_append(s1 + s2 + s3 + s4, s5);
    lemma_only_logs_append(s1 + s2 + s3 + s4 + s5, s6);
    lemma_only_logs_append(s1 + s2 + s3 + s4 + s5 + s6, s7);
    lemma_only_logs_append(s1 + s2 + s3 + s4 + s5 + s6 + s7, s8);
    lemma_only_logs_append(s1 + s2 + s3 + s4 + s5 + s6 + s7 + s8, s9);
}

/// On the Ryujinx emulator the self-check only writes to the log: it shows
/// no dialog and asks no question.
pub proof fn lemma_ryujinx_only_logs(p: InstallProbe)
    requires
        p.on_ryujinx,
    ensures
        only_logs(validation_plan(p)),
{
    lemma_plan_only_logs(p);
}

/// A complete and clean installation (every required entry present, no
/// conflicting leftover) bothers the player with no dialog or question.
pub proof fn lemma_complete_install_only_logs(p: InstallProbe)
    requires
        p.smashline_hook,
        p.arcropolis,
        p.nro_hook,
        !p.smashline_development_hook,
        !(p.development_nro && !p.dev_folder),
        !p.stale_hdr,
        p.hdr_assets,
        p.hdr_stages,
    ensures
        only_logs(validation_plan(p)),
{
    lemma_plan_only_logs(p);
}

/// The self-check always ends by logging that it is complete.
pub proof fn lemma_plan_ends_with_completion(p: InstallProbe)
    ensures
        validation_plan(p).len() > 0,
        validation_plan(p).last() == InstallAction::Print(Message::ValidationComplete),
{
}

/// The probe found the conflict that the question is about.
pub open spec fn conflict_found(p: InstallProbe, q: Prompt) -> bool {
    match q {
        Prompt::DeleteSmashlineDevelopmentHook => p.smashline_development_hook,
        Prompt::DeleteDevelopmentNro => p.development_nro && !p.dev_folder,
        Prompt::DeleteStaleHdr => p.stale_hdr,
    }
}

proof fn lemma_contains_split(a: Seq<InstallAction>, b: Seq<InstallAction>, x: InstallAction)
    requires
        (a + b).contains(x),
    ensures
        a.contains(x) || b.contains(x),
{
    let i = choose|i: int| 0 <= i < (a + b).len() && (a + b)[i] == x;
    if i < a.len() {
        assert(a[i] == x);
    } else {
        assert(b[i - a.len()] == x);
    }
}

proof fn lemma_presence_asks_nothing(found: bool, r: bool, m1: Message, m2: Message, q: Prompt)
    ensures
        !presence_report(found, r, m1, m2).contains(InstallAction::Ask(q)),
{
    reveal(presence_report);
    let s = presence_report(found, r, m1, m2);
    if s.contains(InstallAction::Ask(q)) {
        let i = choose|i: int| 0 <= i < s.len() && s[i] == InstallAction::Ask(q);
        assert(s[0] != InstallAction::Ask(q));
    }
}

proof fn lemma_conflict_asks_own(found: bool, r: bool, m: Message, own: Prompt, q: Prompt)
    requires
        conflict_report(found, r, m, own).contains(InstallAction::Ask(q)),
    ensures
        found,
        !r,
        own == q,
{
    reveal(conflict_report);
    let s = conflict_report(found, r, m, own);
    let i = choose|i: int| 0 <= i < s.len() && s[i] == InstallAction::Ask(q);
    assert(s[i] == s[0]);
}

/// A file is offered for deletion only off the emulator, and only when the
/// self-check found the conflict that it is about.
pub proof fn lemma_questions_only_for_found_conflicts(p: InstallProbe, q: Prompt)
    requires
        validation_plan(p).contains(InstallAction::Ask(q)),
    ensures
        !p.on_ryujinx,
        conflict_found(p, q),
{
    let x = InstallAction::Ask(q);
    let r = p.on_ryujinx;
    let s1 = presence_report(
        p.smashline_hook,
        r,
        Message::SmashlineHookPresent,
        Message::SmashlineHookMissing,
    );
    let s2 = presence_report(
        p.arcropolis,
        r,
        Message::ArcropolisPresent,
        Message::ArcropolisMissing,
    );
    let s3 = presence_report(p.nro_hook, r, Message::NroHookPresent, Message::NroHookMissing);
    let s4 = conflict_report(
        p.smashline_development_hook,
        r,
        Message::SmashlineDevelopmentConflict,
        Prompt::DeleteSmashlineDevelopmentHook,
    );
    let s5 = conflict_report(
        p.development_nro && !p.dev_folder,
        r,
        Message::DevelopmentNroMistake,
        Prompt::DeleteDevelopmentNro,
    );
    let s6 = conflict_report(p.stale_hdr, r, Message::StaleHdrConflict, Prompt::DeleteStaleHdr);
    let s7 = presence_report(
        p.hdr_assets,
        r,
        Message::HdrAssetsPresent,
        Message::HdrAssetsMissing,
    );
    let s8 = presence_report(
        p.hdr_stages,
        r,
        Message::HdrStagesPresent,
        Message::HdrStagesMissing,
    );
    let s9 = seq![InstallAction::Print(Message::ValidationComplete)];
    lemma_presence_asks_nothing(
        p.smashline_hook,
        r,
        Message::SmashlineHookPresent,
        Message::SmashlineHookMissing,
        q,
    );
    lemma_presence_asks_nothing(
        p.arcropolis,
        r,
        Message::ArcropolisPresent,
        Message::ArcropolisMissing,
        q,
    );
    lemma_presence_asks_nothing(p.nro_hook, r, Message::NroHookPresent, Message::NroHookMissing, q);
    lemma_presence_asks_nothing(
        p.hdr_assets,
        r,
        Message::HdrAssetsPresent,
        Message::HdrAssetsMissing,
        q,
    );
    lemma_presence_asks_nothing(
        p.hdr_stages,
        r,
        Message::HdrStagesPresent,
        Message::HdrStagesMissing,
        q,
    );
    if s9.contains(x) {
        let i = choose|i: int| 0 <= i < s9.len() && s9[i] == x;
        assert(s9[i] == s9[0]);
    }
    let p7 = s1 + s2 + s3 + s4 + s5 + s6 + s7;
    lemma_contains_split(p7 + s8, s9, x);
    lemma_contains_split(p7, s8, x);
    lemma_contains_split(s1 + s2 + s3 + s4 + s5 + s6, s7, x);
    let p3 = s1 + s2 + s3;
    lemma_contains_split(p3 + s4 + s5, s6, x);
    if s6.contains(x) {
        lemma_conflict_asks_own(p.stale_hdr, r, Message::StaleHdrConflict, Prompt::DeleteStaleHdr, q);
    } else {
        lemma_contains_split(p3 + s4, s5, x);
        if s5.contains(x) {
            lemma_conflict_asks_own(
                p.development_nro && !p.dev_folder,
                r,
                Message::DevelopmentNroMistake,
                Prompt::DeleteDevelopmentNro,
                q,
            );
        } else {
            lemma_contains_split(p3, s4, x);
            if s4.contains(x) {
                lemma_conflict_asks_own(
                    p.smashline_development_hook,
                    r,
                    Message::SmashlineDevelopmentConflict,
                    Prompt::DeleteSmashlineDevelopmentHook,
                    q,
                );
            } else {
                lemma_contains_split(s1 + s2, s3, x);
                lemma_contains_split(s1, s2, x);
            }
        }
    }
}


/// Keeping the file deletes nothing and relaunches nothing.
pub proof fn lemma_declining_keeps_files(q: Prompt)
    ensures
        forall|i: int|
            0 <= i < spec_answer_prompt(q, false).len() ==> !(#[trigger] spec_answer_prompt(
                q,
                false,
            )[i] is RemoveFile) && !(spec_answer_prompt(q, false)[i] is Relaunch),
{
}

/// Only the conflicting leftovers are ever offered for deletion, never a
/// required plugin or asset folder.
pub proof fn lemma_only_leftovers_are_deleted(q: Prompt)
    ensures
        prompt_file(q) == ModFile::SmashlineDevelopmentHook || prompt_file(q)
            == ModFile::DevelopmentNro || prompt_file(q) == ModFile::StaleHdr,
        spec_answer_prompt(q, true) == seq![
            InstallAction::RemoveFile(prompt_file(q)),
            InstallAction::Relaunch,
        ],
{
}

/// Whether the probe found the entry.
pub open spec fn probe_found(p: InstallProbe, f: ModFile) -> bool {
    match f {
        ModFile::SmashlineHook => p.smashline_hook,
        ModFile::Arcropolis => p.arcropolis,
        ModFile::NroHook => p.nro_hook,
        ModFile::SmashlineDevelopmentHook => p.smashline_development_hook,
        ModFile::DevelopmentNro => p.development_nro,
        ModFile::DevFolder => p.dev_folder,
        ModFile::StaleHdr => p.stale_hdr,
        ModFile::HdrAssets => p.hdr_assets,
        ModFile::HdrStages => p.hdr_stages,
    }
}

/// The entries that a working installation needs.
pub open spec fn is_required(f: ModFile) -> bool {
    f == ModFile::SmashlineHook || f == ModFile::Arcropolis || f == ModFile::NroHook || f
        == ModFile::HdrAssets || f == ModFile::HdrStages
}

/// The message that says a required entry is there.
pub open spec fn present_message(f: ModFile) -> Message {
    match f {
        ModFile::SmashlineHook => Message::SmashlineHookPresent,
        ModFile::Arcropolis => Message::ArcropolisPresent,
        ModFile::NroHook => Message::NroHookPresent,
        ModFile::HdrAssets => Message::HdrAssetsPresent,
        _ => Message::HdrStagesPresent,
    }
}

/// The message that says a required entry is missing.
pub open spec fn missing_message(f: ModFile) -> Message {
    match f {
        ModFile::SmashlineHook => Message::SmashlineHookMissing,
        ModFile::Arcropolis => Message::ArcropolisMissing,
        ModFile::NroHook => Message::NroHookMissing,
        ModFile::HdrAssets => Message::HdrAssetsMissing,
        _ => Message::HdrStagesMissing,
    }
}

/// The message logged on the emulator for a conflict.
pub open spec fn conflict_notice(q: Prompt) -> Message {
    match q {
        Prompt::DeleteSmashlineDevelopmentHook => Message::SmashlineDevelopmentConflict,
        Prompt::DeleteDevelopmentNro => Message::DevelopmentNroMistake,
        Prompt::DeleteStaleHdr => Message::StaleHdrConflict,
    }
}

proof fn lemma_contains_concat(a: Seq<InstallAction>, b: Seq<InstallAction>, x: InstallAction)
    ensures
        (a + b).contains(x) <==> a.contains(x) || b.contains(x),
{
    if (a + b).contains(x) {
        lemma_contains_split(a, b, x);
    }
    if a.contains(x) {
        let i = choose|i: int| 0 <= i < a.len() && a[i] == x;
        assert((a + b)[i] == x);
    }
    if b.contains(x) {
        let i = choose|i: int| 0 <= i < b.len() && b[i] == x;
        assert((a + b)[a.len() + i] == x);
    }
}

proof fn lemma_single_contains(a: InstallAction, x: InstallAction)
    ensures
        seq![a].contains(x) <==> a == x,
{
    if a == x {
        assert(seq![a][0] == x);
    }
}

proof fn lemma_presence_contains(found: bool, r: bool, m1: Message, m2: Message, x: InstallAction)
    ensures
        presence_report(found, r, m1, m2).contains(x) <==> x == (if found {
            InstallAction::Print(m1)
        } else if r {
            InstallAction::Print(m2)
        } else {
            InstallAction::Dialog(m2)
        }),
{
    reveal(presence_report);
    lemma_single_contains(
        if found {
            InstallAction::Print(m1)
        } else if r {
            InstallAction::Print(m2)
        } else {
            InstallAction::Dialog(m2)
        },
        x,
    );
}

proof fn lemma_conflict_contains(found: bool, r: bool, m: Message, q: Prompt, x: InstallAction)
    ensures
        conflict_report(found, r, m, q).contains(x) <==> found && x == (if r {
            InstallAction::Print(m)
        } else {
            InstallAction::Ask(q)
        }),
{
    reveal(conflict_report);
    lemma_single_contains(
        if r {
            InstallAction::Print(m)
        } else {
            InstallAction::Ask(q)
        },
        x,
    );
}

/// The one action the plan holds for a required entry.
spec fn required_action(p: InstallProbe, f: ModFile) -> InstallAction {
    if probe_found(p, f) {
        InstallAction::Print(present_message(f))
    } else if p.on_ryujinx {
        InstallAction::Print(missing_message(f))
    } else {
        InstallAction::Dialog(missing_message(f))
    }
}

/// The one action the plan holds for a conflict that was found.
spec fn conflict_action(p: InstallProbe, q: Prompt) -> InstallAction {
    if p.on_ryujinx {
        InstallAction::Print(conflict_notice(q))
    } else {
        InstallAction::Ask(q)
    }
}

proof fn lemma_plan_contains(p: InstallProbe, x: InstallAction)
    ensures
        validation_plan(p).contains(x) <==> {
            ||| x == required_action(p, ModFile::SmashlineHook)
            ||| x == required_action(p, ModFile::Arcropolis)
            ||| x == required_action(p, ModFile::NroHook)
            ||| conflict_found(p, Prompt::DeleteSmashlineDevelopmentHook) && x == conflict_action(
                p,
                Prompt::DeleteSmashlineDevelopmentHook,
            )
            ||| conflict_found(p, Prompt::DeleteDevelopmentNro) && x == conflict_action(
                p,
                Prompt::DeleteDevelopmentNro,
            )
            ||| conflict_found(p, Prompt::DeleteStaleHdr) && x == conflict_action(
                p,
                Prompt::DeleteStaleHdr,
            )
            ||| x == required_action(p, ModFile::HdrAssets)
            ||| x == required_action(p, ModFile::HdrStages)
            ||| x == InstallAction::Print(Message::ValidationComplete)
        },
{
    let r = p.on_ryujinx;
    let s1 = presence_report(
        p.smashline_hook,
        r,
        Message::SmashlineHookPresent,
        Message::SmashlineHookMissing,
    );
    let s2 = presence_report(
        p.arcropolis,
        r,
        Message::ArcropolisPresent,
        Message::ArcropolisMissing,
    );
    let s3 = presence_report(p.nro_hook, r, Message::NroHookPresent, Message::NroHookMissing);
    let s4 = conflict_report(
        p.smashline_development_hook,
        r,
        Message::SmashlineDevelopmentConflict,
        Prompt::DeleteSmashlineDevelopmentHook,
    );
    let s5 = conflict_report(
        p.development_nro && !p.dev_folder,
        r,
        Message::DevelopmentNroMistake,
        Prompt::DeleteDevelopmentNro,
    );
    let s6 = conflict_report(p.stale_hdr, r, Message::StaleHdrConflict, Prompt::DeleteStaleHdr);
    let s7 = presence_report(
        p.hdr_assets,
        r,
        Message::HdrAssetsPresent,
        Message::HdrAssetsMissing,
    );
    let s8 = presence_report(
        p.hdr_stages,
        r,
        Message::HdrStagesPresent,
        Message::HdrStagesMissing,
    );
    let s9 = seq![InstallAction::Print(Message::ValidationComplete)];
    lemma_presence_contains(
        p.smashline_hook,
        r,
        Message::SmashlineHookPresent,
        Message::SmashlineHookMissing,
        x,
    );
    lemma_presence_contains(
        p.arcropolis,
        r,
        Message::ArcropolisPresent,
        Message::ArcropolisMissing,
        x,
    );
    lemma_presence_contains(p.nro_hook, r, Message::NroHookPresent, Message::NroHookMissing, x);
    lemma_conflict_contains(
        p.smashline_development_hook,
        r,
        Message::SmashlineDevelopmentConflict,
        Prompt::DeleteSmashlineDevelopmentHook,
        x,
    );
    lemma_conflict_contains(
        p.development_nro && !p.dev_folder,
        r,
        Message::DevelopmentNroMistake,
        Prompt::DeleteDevelopmentNro,
        x,
    );
    lemma_conflict_contains(p.stale_hdr, r, Message::StaleHdrConflict, Prompt::DeleteStaleHdr, x);
    lemma_presence_contains(
        p.hdr_assets,
        r,
        Message::HdrAssetsPresent,
        Message::HdrAssetsMissing,
        x,
    );
    lemma_presence_contains(
        p.hdr_stages,
        r,
        Message::HdrStagesPresent,
        Message::HdrStagesMissing,
        x,
    );
    lemma_single_contains(InstallAction::Print(Message::ValidationComplete), x);
    lemma_contains_concat(s1, s2, x);
    lemma_contains_concat(s1 + s2, s3, x);
    lemma_contains_concat(s1 + s2 + s3, s4, x);
    lemma_contains_concat(s1 + s2 + s3 + s4, s5, x);
    lemma_contains_concat(s1 + s2 + s3 + s4 + s5, s6, x);
    lemma_contains_concat(s1 + s2 + s3 + s4 + s5 + s6, s7, x);
    lemma_contains_concat(s1 + s2 + s3 + s4 + s5 + s6 + s7, s8, x);
    lemma_contains_concat(s1 + s2 + s3 + s4 + s5 + s6 + s7 + s8, s9, x);
}

/// Each required entry is judged by its own probe result alone: it is
/// logged as present exactly when found; when missing, the player sees a
/// dialog off the emulator, and the log says so on it.
pub proof fn lemma_required_entries_reported(p: InstallProbe, f: ModFile)
    requires
        is_required(f),
    ensures
        validation_plan(p).contains(InstallAction::Print(present_message(f))) <==> probe_found(
            p,
            f,
        ),
        !p.on_ryujinx ==> (validation_plan(p).contains(InstallAction::Dialog(missing_message(f)))
            <==> !probe_found(p, f)),
        p.on_ryujinx ==> (validation_plan(p).contains(InstallAction::Print(missing_message(f)))
            <==> !probe_found(p, f)),
{
    lemma_plan_contains(p, InstallAction::Print(present_message(f)));
    lemma_plan_contains(p, InstallAction::Dialog(missing_message(f)));
    lemma_plan_contains(p, InstallAction::Print(missing_message(f)));
}

/// Every conflict that was found is dealt with: off the emulator the
/// player is asked to delete it, on it the conflict is logged; and neither
/// happens for a conflict that was not found.
pub proof fn lemma_found_conflicts_reported(p: InstallProbe, q: Prompt)
    ensures
        !p.on_ryujinx ==> (validation_plan(p).contains(InstallAction::Ask(q)) <==> conflict_found(
            p,
            q,
        )),
        p.on_ryujinx ==> (validation_plan(p).contains(InstallAction::Print(conflict_notice(q)))
            <==> conflict_found(p, q)),
{
    lemma_plan_contains(p, InstallAction::Ask(q));
    lemma_plan_contains(p, InstallAction::Print(conflict_notice(q)));
}

/// The file a question offers to delete is the one whose finding raised it.
pub proof fn lemma_question_targets_found_file(p: InstallProbe, q: Prompt)
    requires
        conflict_found(p, q),
    ensures
        probe_found(p, prompt_file(q)),
        !is_required(prompt_file(q)),
{
}

} // verus!
