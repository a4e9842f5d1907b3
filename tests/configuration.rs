use emlib_build::assembly::{assemble, base, emlib_configuration};
use emlib_build::config::BuildConfiguration;
use emlib_build::kit::KitVariant;
use emlib_build::profile::{resolve, Profile};

fn signal(s: &str) -> Option<String> {
    Some(s.to_string())
}

fn device_count(c: &BuildConfiguration) -> usize {
    c.defines().iter().filter(|d| d.name == "EFM32GG990F1024").count()
}

#[test]
fn unrecognised_signals_resolve_to_production() {
    assert_eq!(resolve(None), Profile::Production);
    assert_eq!(resolve(signal("")), Profile::Production);
    assert_eq!(resolve(signal("PROD")), Profile::Production);
    assert_eq!(resolve(signal("production")), Profile::Production);
    assert_eq!(resolve(signal("TEST")), Profile::Production);
    assert_eq!(resolve(signal("test ")), Profile::Production);
}

#[test]
fn recognised_signals_resolve_to_their_profile() {
    assert_eq!(resolve(signal("prod")), Profile::Production);
    assert_eq!(resolve(signal("test")), Profile::Test);
}

#[test]
fn resolution_and_assembly_are_repeatable() {
    for s in [None, signal("test"), signal("prod"), signal("x")] {
        assert_eq!(resolve(s.clone()), resolve(s.clone()));
        let a = emlib_configuration(s.clone(), KitVariant::Stk3700, "/w");
        let b = emlib_configuration(s, KitVariant::Stk3700, "/w");
        assert_eq!(a.files(), b.files());
        assert_eq!(a.include_dirs(), b.include_dirs());
        assert_eq!(a.flags(), b.flags());
        assert_eq!(a.output(), b.output());
    }
}

#[test]
fn base_holds_device_startup_and_reproducibility_flag() {
    let b = base("/home/dev/fw");
    assert_eq!(device_count(&b), 1);
    assert_eq!(b.defines()[0].value, None);
    assert_eq!(b.files()[0], "efm32-common/Device/EFM32GG/Source/GCC/startup_efm32gg.S");
    assert_eq!(b.files()[1], "efm32-common/Device/EFM32GG/Source/system_efm32gg.c");
    assert_eq!(b.files().len(), 15);
    assert_eq!(b.files()[8], "src/chip/chip.c");
    assert_eq!(b.files()[14], "src/timer/get_timer.c");
    assert_eq!(b.include_dirs().len(), 4);
    assert_eq!(
        b.flags(),
        &vec![
            "-g".to_string(),
            "-Wall".to_string(),
            "-mthumb".to_string(),
            "-mcpu=cortex-m3".to_string(),
            "-fdebug-prefix-map=/home/dev/fw=.".to_string(),
        ]
    );
}

#[test]
fn profiles_extend_base_strictly() {
    for kit in [KitVariant::Dk3750, KitVariant::Stk3700] {
        for profile in [Profile::Production, Profile::Test] {
            let b = base("/w");
            let c = assemble(profile, base("/w"), kit);
            assert!(c.files().len() > b.files().len());
            assert_eq!(&c.files()[..b.files().len()], &b.files()[..]);
            assert_eq!(&c.include_dirs()[..b.include_dirs().len()], &b.include_dirs()[..]);
            assert_eq!(c.flags(), b.flags());
            assert!(c.defines().iter().any(|d| d.name == "EFM32GG990F1024"));
        }
    }
}

#[test]
fn test_harness_sources_stay_out_of_production() {
    let p = assemble(Profile::Production, base("/w"), KitVariant::Stk3700);
    let t = assemble(Profile::Test, base("/w"), KitVariant::Stk3700);
    assert_eq!(p.files().len(), 15 + 2 + 24);
    assert_eq!(t.files().len(), 15 + 2 + 9);
    for f in t.files() {
        if f.starts_with("test/") {
            assert!(!p.files().contains(f));
        }
    }
    assert!(p.files().contains(&"efm32-common/kits/common/drivers/nandflash.c".to_string()));
    assert!(!t.files().contains(&"efm32-common/kits/common/drivers/nandflash.c".to_string()));
    assert!(t.files().contains(&"test/mocks/Mockadc.c".to_string()));
}

#[test]
fn profiles_share_only_base_sources() {
    for kit in [KitVariant::Dk3750, KitVariant::Stk3700] {
        let b = base("/w");
        let mut kb = base("/w");
        kit.contribute(&mut kb);
        let p = assemble(Profile::Production, base("/w"), kit);
        let t = assemble(Profile::Test, base("/w"), kit);
        for f in p.files() {
            if t.files().contains(f) {
                assert!(kb.files().contains(f), "{} shared outside the base", f);
            }
        }
        assert!(b.files().contains(&"src/chip/chip.c".to_string()));
        assert_eq!(p.files().iter().filter(|f| *f == "src/chip/chip.c").count(), 1);
        assert_eq!(t.files().iter().filter(|f| *f == "src/chip/chip.c").count(), 1);
    }
}

#[test]
fn test_profile_defines_framework_symbols() {
    let t = assemble(Profile::Test, base("/w"), KitVariant::Dk3750);
    let unity = t.defines().iter().find(|d| d.name == "UNITY_OUTPUT_CHAR").unwrap();
    assert_eq!(unity.value, Some("print_char".to_string()));
    let null = t.defines().iter().find(|d| d.name == "NULL").unwrap();
    assert_eq!(null.value, Some("0".to_string()));
    assert_eq!(t.defines().len(), 3);
    let p = assemble(Profile::Production, base("/w"), KitVariant::Dk3750);
    assert_eq!(p.defines().len(), 1);
}

#[test]
fn device_defined_once_in_every_configuration() {
    for kit in [KitVariant::Dk3750, KitVariant::Stk3700] {
        for s in [None, signal("test"), signal("prod")] {
            let c = emlib_configuration(s, kit, "/w");
            assert_eq!(device_count(&c), 1);
        }
    }
    let mut c = base("/w");
    c.define("EFM32GG990F1024", Some("1"));
    assert_eq!(device_count(&c), 1);
    assert_eq!(c.defines()[0].value, Some("1".to_string()));
}

#[test]
fn define_replaces_value_in_place() {
    let mut c = BuildConfiguration::new();
    c.define("A", None);
    c.define("B", Some("2"));
    c.define("A", Some("3"));
    assert_eq!(c.defines().len(), 2);
    assert_eq!(c.defines()[0].name, "A");
    assert_eq!(c.defines()[0].value, Some("3".to_string()));
    assert_eq!(c.defines()[1].name, "B");
}

#[test]
fn kit_contribution_follows_base_in_order() {
    let mut c = base("/w");
    let b = base("/w");
    KitVariant::Dk3750.contribute(&mut c);
    assert_eq!(&c.files()[..15], &b.files()[..]);
    assert_eq!(
        &c.files()[15..],
        &[
            "efm32-common/kits/common/bsp/bsp_dk_3201.c".to_string(),
            "efm32-common/kits/common/bsp/bsp_dk_leds.c".to_string(),
        ]
    );
    assert_eq!(c.include_dirs()[4], "efm32-common/kits/EFM32GG_DK3750/config");

    let mut k = BuildConfiguration::new();
    KitVariant::Dk3750.contribute(&mut k);
    let mut files_a: Vec<String> = c.files().clone();
    let mut files_b: Vec<String> = k.files().iter().chain(b.files().iter()).cloned().collect();
    files_a.sort();
    files_b.sort();
    assert_eq!(files_a, files_b);
}

#[test]
fn configuration_names_the_archive() {
    let c = emlib_configuration(None, KitVariant::Stk3700, "/w");
    assert_eq!(c.output(), "libcompiler-rt.a");
    assert!(c.files().contains(&"src/leuart/get_leuart.c".to_string()));
    assert!(c.files().contains(&"efm32-common/kits/common/bsp/bsp_stk.c".to_string()));
}
