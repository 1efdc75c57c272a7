use hdr::install::{
    answer_prompt, quick_validate_install, InstallAction, InstallProbe, Message, ModFile, Prompt,
};
use hdr::platform::{is_available, is_on_ryujinx};

fn complete(on_ryujinx: bool) -> InstallProbe {
    InstallProbe {
        on_ryujinx,
        smashline_hook: true,
        arcropolis: true,
        nro_hook: true,
        smashline_development_hook: false,
        development_nro: false,
        dev_folder: false,
        stale_hdr: false,
        hdr_assets: true,
        hdr_stages: true,
    }
}

fn broken(on_ryujinx: bool) -> InstallProbe {
    InstallProbe {
        on_ryujinx,
        smashline_hook: false,
        arcropolis: false,
        nro_hook: false,
        smashline_development_hook: true,
        development_nro: true,
        dev_folder: false,
        stale_hdr: true,
        hdr_assets: false,
        hdr_stages: false,
    }
}

use InstallAction::{Ask, Dialog, Print};

#[test]
fn complete_install_logs_presence() {
    assert_eq!(
        quick_validate_install(&complete(false)),
        vec![
            Print(Message::SmashlineHookPresent),
            Print(Message::ArcropolisPresent),
            Print(Message::NroHookPresent),
            Print(Message::HdrAssetsPresent),
            Print(Message::HdrStagesPresent),
            Print(Message::ValidationComplete),
        ]
    );
}

#[test]
fn broken_install_on_console_asks_and_warns() {
    assert_eq!(
        quick_validate_install(&broken(false)),
        vec![
            Dialog(Message::SmashlineHookMissing),
            Dialog(Message::ArcropolisMissing),
            Dialog(Message::NroHookMissing),
            Ask(Prompt::DeleteSmashlineDevelopmentHook),
            Ask(Prompt::DeleteDevelopmentNro),
            Ask(Prompt::DeleteStaleHdr),
            Dialog(Message::HdrAssetsMissing),
            Dialog(Message::HdrStagesMissing),
            Print(Message::ValidationComplete),
        ]
    );
}

#[test]
fn law_ryujinx_only_logs() {
    let plan = quick_validate_install(&broken(true));
    assert_eq!(
        plan,
        vec![
            Print(Message::SmashlineHookMissing),
            Print(Message::ArcropolisMissing),
            Print(Message::NroHookMissing),
            Print(Message::SmashlineDevelopmentConflict),
            Print(Message::DevelopmentNroMistake),
            Print(Message::StaleHdrConflict),
            Print(Message::HdrAssetsMissing),
            Print(Message::HdrStagesMissing),
            Print(Message::ValidationComplete),
        ]
    );
}

#[test]
fn development_nro_with_dev_folder_is_fine() {
    let mut p = complete(false);
    p.development_nro = true;
    p.dev_folder = true;
    assert!(!quick_validate_install(&p).contains(&Ask(Prompt::DeleteDevelopmentNro)));
    p.dev_folder = false;
    assert!(quick_validate_install(&p).contains(&Ask(Prompt::DeleteDevelopmentNro)));
}

#[test]
fn answers_to_questions() {
    assert_eq!(
        answer_prompt(Prompt::DeleteStaleHdr, true),
        vec![InstallAction::RemoveFile(ModFile::StaleHdr), InstallAction::Relaunch]
    );
    assert_eq!(
        answer_prompt(Prompt::DeleteStaleHdr, false),
        vec![Dialog(Message::StaleHdrWarning)]
    );
    assert_eq!(
        answer_prompt(Prompt::DeleteSmashlineDevelopmentHook, false),
        vec![Dialog(Message::SmashlineDevelopmentWarning)]
    );
    assert!(answer_prompt(Prompt::DeleteDevelopmentNro, false).is_empty());
    assert_eq!(
        answer_prompt(Prompt::DeleteDevelopmentNro, true),
        vec![InstallAction::RemoveFile(ModFile::DevelopmentNro), InstallAction::Relaunch]
    );
}

#[test]
fn paths_and_texts() {
    assert_eq!(
        ModFile::StaleHdr.path(),
        "sd:/atmosphere/contents/01006a800016e000/romfs/skyline/plugins/libhdr.nro"
    );
    assert_eq!(ModFile::HdrAssets.path(), "sd:/ultimate/mods/hdr-assets/");
    assert!(ModFile::DevFolder.is_directory());
    assert!(!ModFile::NroHook.is_directory());
    assert_eq!(Message::ValidationComplete.text(), "simple validation complete.");
    assert_eq!(
        Prompt::DeleteStaleHdr.question(),
        "Stale libhdr.nro found in atmos/contents! This will conflict with new hdr packaging! Would you like to delete it?"
    );
    assert_eq!(Prompt::DeleteSmashlineDevelopmentHook.file(), ModFile::SmashlineDevelopmentHook);
}

#[test]
fn platform_checks() {
    assert!(is_on_ryujinx(0x8004000));
    assert!(!is_on_ryujinx(0x8504000));
    assert!(is_available());
}
