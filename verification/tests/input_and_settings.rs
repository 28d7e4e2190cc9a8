use ris_engine::info::AppInfo;
use ris_engine::info::ArgsInfo;
use ris_engine::info::CpuInfo;
use ris_engine::input::buttons::Buttons;
use ris_engine::settings::job_settings::JobSettings;
use ris_engine::settings::Settings;

#[test]
fn buttons_start_released() {
    let buttons = Buttons::default();
    assert_eq!(buttons.up(), 0);
    assert_eq!(buttons.down(), 0);
    assert_eq!(buttons.hold(), 0);
    assert!(!buttons.is_up(u32::MAX));
    assert!(!buttons.is_down(u32::MAX));
    assert!(!buttons.is_hold(u32::MAX));
}

#[test]
fn buttons_set_finds_the_edges() {
    let mut buttons = Buttons::default();
    buttons.set(&0b0110, &0b0011);

    assert_eq!(buttons.up(), 0b0001);
    assert_eq!(buttons.down(), 0b0100);
    assert_eq!(buttons.hold(), 0b0110);

    assert!(buttons.is_up(0b0001));
    assert!(!buttons.is_up(0b1110));
    assert!(buttons.is_down(0b0100));
    assert!(!buttons.is_down(0b1011));
    assert!(buttons.is_hold(0b0010));
    assert!(buttons.is_hold(0b1100));
    assert!(!buttons.is_hold(0b1001));
    assert!(!buttons.is_hold(0));
}

#[test]
fn buttons_update_follows_what_was_held() {
    let mut buttons = Buttons::default();

    buttons.update(&0b0011);
    assert_eq!((buttons.up(), buttons.down(), buttons.hold()), (0, 0b0011, 0b0011));

    buttons.update(&0b0110);
    assert_eq!((buttons.up(), buttons.down(), buttons.hold()), (0b0001, 0b0100, 0b0110));

    buttons.update(&0b0110);
    assert_eq!((buttons.up(), buttons.down(), buttons.hold()), (0, 0, 0b0110));

    buttons.update(&0);
    assert_eq!((buttons.up(), buttons.down(), buttons.hold()), (0b0110, 0, 0));

    buttons.update(&u32::MAX);
    assert_eq!((buttons.up(), buttons.down(), buttons.hold()), (0, u32::MAX, u32::MAX));
}

#[test]
fn buttons_clone_keeps_the_masks() {
    let mut buttons = Buttons::default();
    buttons.set(&0x8000_0001, &0x0000_0003);
    let copy = buttons.clone();
    assert_eq!(copy.up(), 0x0000_0002);
    assert_eq!(copy.down(), 0x8000_0000);
    assert_eq!(copy.hold(), 0x8000_0001);
}

fn app_info(cpu_count: usize, workers: usize) -> AppInfo {
    AppInfo {
        args: ArgsInfo { workers },
        cpu: CpuInfo { cpu_count },
    }
}

#[test]
fn settings_start_unchanged() {
    let settings = Settings::new(&app_info(8, 6));
    assert!(!settings.changed());
    assert!(!settings.save_requested());
    assert_eq!(settings.job().workers(), 6);
    assert!(!settings.job().changed());

    let settings = Settings::default();
    assert!(!settings.changed());
    assert!(!settings.save_requested());
    assert_eq!(settings.job().workers(), 0);
}

#[test]
fn settings_change_with_their_parts() {
    let mut settings = Settings::new(&app_info(8, 6));

    settings.job_mut().set_workers(6);
    assert!(!settings.changed());

    settings.job_mut().set_workers(3);
    assert!(settings.changed());
    assert!(settings.job().changed());
    assert_eq!(settings.job().workers(), 3);
    assert!(!settings.save_requested());

    settings.reset();
    assert!(!settings.changed());
    assert!(!settings.job().changed());
    assert_eq!(settings.job().workers(), 3);
}

#[test]
fn settings_save_request_counts_as_change() {
    let mut settings = Settings::new(&app_info(8, 6));

    settings.request_save();
    assert!(settings.changed());
    assert!(settings.save_requested());

    // the request is taken up, and the settings stay flagged as changed
    settings.reset();
    assert!(settings.changed());
    assert!(!settings.save_requested());

    settings.reset();
    assert!(settings.changed());
    assert!(!settings.save_requested());
}

#[test]
fn job_settings_follow_the_command_line() {
    let mut job = JobSettings::new(&app_info(4, 2));
    assert_eq!(job.workers(), 2);
    assert!(!job.changed());

    job.set_workers(2);
    assert!(!job.changed());
    job.set_workers(4);
    assert!(job.changed());
    job.set_workers(4);
    assert!(job.changed());
    assert_eq!(job.workers(), 4);

    job.reset();
    assert!(!job.changed());
    assert_eq!(job.workers(), 4);

    let job = JobSettings::default();
    assert_eq!(job.workers(), 0);
    assert!(!job.changed());
}
