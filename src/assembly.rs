use vstd::prelude::*;
use vstd::string::*;
use crate::config::{
    BuildConfiguration, ConfigView, DefineView, empty_view, has_define, lemma_put_define, names_unique,
    put_define,
};
use crate::kit::{KitVariant, kit_files, kit_include_dirs, with_kit};
use crate::profile::{Profile, resolve, resolve_spec};

verus! {

/// Name of the archive that every profile produces.
pub open spec fn output_name() -> Seq<char> {
    "libcompiler-rt.a"@
}

/// The device-identity definition present in every configuration.
pub open spec fn device_name() -> Seq<char> {
    "EFM32GG990F1024"@
}

pub open spec fn base_include_dirs() -> Seq<Seq<char>> {
    seq![
        "efm32-common/CMSIS/Include"@,
        "efm32-common/Device/EFM32GG/Include"@,
        "efm32-common/kits/common/bsp"@,
        "efm32-common/emlib/inc"@,
    ]
}

/// Startup and system sources of the device, the core peripheral drivers, then the
/// application drivers that every profile compiles.
pub open spec fn base_files() -> Seq<Seq<char>> {
    seq![
        "efm32-common/Device/EFM32GG/Source/GCC/startup_efm32gg.S"@,
        "efm32-common/Device/EFM32GG/Source/system_efm32gg.c"@,
        "efm32-common/emlib/src/em_cmu.c"@,
        "efm32-common/emlib/src/em_gpio.c"@,
        "efm32-common/emlib/src/em_usart.c"@,
        "efm32-common/emlib/src/em_emu.c"@,
        "efm32-common/emlib/src/em_ebi.c"@,
        "efm32-common/emlib/src/em_int.c"@,
        "src/chip/chip.c"@,
        "src/cmsis/cmsis.c"@,
        "src/gpio/gpio.c"@,
        "src/irq/irq.c"@,
        "src/usart/usart.c"@,
        "src/adc/get_adc.c"@,
        "src/timer/get_timer.c"@,
    ]
}

/// Maps the working directory to `.` in debug information, so that builds from
/// different places give identical output.
pub open spec fn debug_prefix_map_flag(work_dir: Seq<char>) -> Seq<char> {
    "-fdebug-prefix-map="@ + work_dir + "=."@
}

pub open spec fn base_flags(work_dir: Seq<char>) -> Seq<Seq<char>> {
    seq!["-g"@, "-Wall"@, "-mthumb"@, "-mcpu=cortex-m3"@, debug_prefix_map_flag(work_dir)]
}

/// The kit-independent part shared by every profile, layered on `c`.
pub open spec fn with_base(c: ConfigView, work_dir: Seq<char>) -> ConfigView {
    ConfigView {
        defines: put_define(c.defines, device_name(), None),
        include_dirs: c.include_dirs + base_include_dirs(),
        files: c.files + base_files(),
        flags: c.flags + base_flags(work_dir),
        output: c.output,
    }
}

pub open spec fn production_include_dirs() -> Seq<Seq<char>> {
    seq![
        "efm32-common/kits/common/bsp"@,
        "src/timer"@,
        "src/adc"@,
        "src/leuart"@,
        "src/lesense"@,
        "efm32-common/kits/common/drivers"@,
    ]
}

/// The rest of the peripheral driver surface, application modules and board drivers.
pub open spec fn production_files() -> Seq<Seq<char>> {
    seq![
        "efm32-common/emlib/src/em_acmp.c"@,
        "efm32-common/emlib/src/em_adc.c"@,
        "efm32-common/emlib/src/em_dma.c"@,
        "efm32-common/emlib/src/em_i2c.c"@,
        "efm32-common/emlib/src/em_leuart.c"@,
        "efm32-common/emlib/src/em_lesense.c"@,
        "efm32-common/emlib/src/em_prs.c"@,
        "efm32-common/emlib/src/em_rtc.c"@,
        "efm32-common/emlib/src/em_system.c"@,
        "efm32-common/emlib/src/em_timer.c"@,
        "src/adc/adc.c"@,
        "src/ebi/ebi.c"@,
        "src/emu/emu.c"@,
        "src/dma/dma.c"@,
        "src/i2c/i2c.c"@,
        "src/leuart/leuart.c"@,
        "src/lesense/lesense.c"@,
        "src/rtc/rtc.c"@,
        "src/timer/timer.c"@,
        "src/acmp/get_acmp.c"@,
        "src/leuart/get_leuart.c"@,
        "efm32-common/kits/common/drivers/nandflash.c"@,
        "efm32-common/kits/common/drivers/dmactrl.c"@,
        "efm32-common/kits/common/drivers/retargetio.c"@,
    ]
}

pub open spec fn with_production(c: ConfigView) -> ConfigView {
    ConfigView {
        include_dirs: c.include_dirs + production_include_dirs(),
        files: c.files + production_files(),
        ..c
    }
}

pub open spec fn test_include_dirs() -> Seq<Seq<char>> {
    seq![
        "test/lib/Unity/src"@,
        "test/lib/cmock/src"@,
        "src/timer"@,
        "src/adc"@,
        "test/mocks"@,
    ]
}

/// The test and mocking frameworks, their utilities, the generated mocks and the test
/// cases.
pub open spec fn test_files() -> Seq<Seq<char>> {
    seq![
        "test/lib/Unity/src/unity.c"@,
        "test/lib/cmock/src/cmock.c"@,
        "test/util/usart_print.c"@,
        "test/mocks/Mockem_adc.c"@,
        "test/mocks/Mockem_timer.c"@,
        "test/mocks/Mockadc.c"@,
        "test/mocks/Mocktimer.c"@,
        "test/tests/adc.c"@,
        "test/tests/timer.c"@,
    ]
}

/// The test branch: assertion output goes through the UART, and `NULL`, which no
/// operating system provides here, is defined for the mocking framework.
pub open spec fn with_test(c: ConfigView) -> ConfigView {
    ConfigView {
        defines: put_define(
            put_define(c.defines, "UNITY_OUTPUT_CHAR"@, Some("print_char"@)),
            "NULL"@,
            Some("0"@),
        ),
        include_dirs: c.include_dirs + test_include_dirs(),
        files: c.files + test_files(),
        ..c
    }
}

/// The kit's contribution on `base`, then the profile's own lists.
pub open spec fn assemble_spec(profile: Profile, base: ConfigView, kit: KitVariant) -> ConfigView {
    match profile {
        Profile::Production => with_production(with_kit(base, kit)),
        Profile::Test => with_test(with_kit(base, kit)),
    }
}

/// The whole configuration for a profile signal, a kit and a working directory.
pub open spec fn emlib_configuration_spec(
    signal: Option<Seq<char>>,
    kit: KitVariant,
    work_dir: Seq<char>,
) -> ConfigView {
    ConfigView {
        output: output_name(),
        ..assemble_spec(resolve_spec(signal), with_base(empty_view(), work_dir), kit)
    }
}

fn debug_prefix_map(work_dir: &str) -> (r: String)
    ensures
        r@ == debug_prefix_map_flag(work_dir@),
{
    String::from_str("-fdebug-prefix-map=").concat(work_dir).concat("=.")
}

/// Adds the device definition, core sources, header directories and flags shared by
/// every profile.
pub fn common_config(config: &mut BuildConfiguration, work_dir: &str)
    requires
        old(config).wf(),
    ensures
        final(config).wf(),
        final(config)@ == with_base(old(config)@, work_dir@),
{
    let ghost c0 = config@;
    config.define("EFM32GG990F1024", None);

    config.include_dir("efm32-common/CMSIS/Include");
    config.include_dir("efm32-common/Device/EFM32GG/Include");
    config.include_dir("efm32-common/kits/common/bsp");
    config.include_dir("efm32-common/emlib/inc");

    config.file("efm32-common/Device/EFM32GG/Source/GCC/startup_efm32gg.S");
    config.file("efm32-common/Device/EFM32GG/Source/system_efm32gg.c");

    config.file("efm32-common/emlib/src/em_cmu.c");
    config.file("efm32-common/emlib/src/em_gpio.c");
    config.file("efm32-common/emlib/src/em_usart.c");
    config.file("efm32-common/emlib/src/em_emu.c");
    config.file("efm32-common/emlib/src/em_ebi.c");
    config.file("efm32-common/emlib/src/em_int.c");

    config.file("src/chip/chip.c");
    config.file("src/cmsis/cmsis.c");
    config.file("src/gpio/gpio.c");
    config.file("src/irq/irq.c");
    config.file("src/usart/usart.c");
    config.file("src/adc/get_adc.c");
    config.file("src/timer/get_timer.c");

    config.flag(String::from_str("-g"));
    config.flag(String::from_str("-Wall"));
    config.flag(String::from_str("-mthumb"));
    config.flag(String::from_str("-mcpu=cortex-m3"));
    config.flag(debug_prefix_map(work_dir));

    assert(config@.include_dirs =~= c0.include_dirs + base_include_dirs());
    assert(config@.files =~= c0.files + base_files());
    assert(config@.flags =~= c0.flags + base_flags(work_dir@));
}

/// Builds the base configuration on an empty one.
pub fn base(work_dir: &str) -> (r: BuildConfiguration)
    ensures
        r.wf(),
        r@ == with_base(empty_view(), work_dir@),
{
    let mut config = BuildConfiguration::new();
    common_config(&mut config, work_dir);
    config
}

/// The production branch: the kit's contribution, then the remaining drivers,
/// application modules and board drivers.
#[verifier::rlimit(40)]
pub fn prod_config(config: &mut BuildConfiguration, kit: KitVariant)
    requires
        old(config).wf(),
    ensures
        final(config).wf(),
        final(config)@ == with_production(with_kit(old(config)@, kit)),
{
    kit.contribute(config);
    let ghost c0 = config@;

    config.include_dir("efm32-common/kits/common/bsp");
    config.include_dir("src/timer");
    config.include_dir("src/adc");
    config.include_dir("src/leuart");
    config.include_dir("src/lesense");

    config.file("efm32-common/emlib/src/em_acmp.c");
    config.file("efm32-common/emlib/src/em_adc.c");
    config.file("efm32-common/emlib/src/em_dma.c");
    config.file("efm32-common/emlib/src/em_i2c.c");
    config.file("efm32-common/emlib/src/em_leuart.c");
    config.file("efm32-common/emlib/src/em_lesense.c");
    config.file("efm32-common/emlib/src/em_prs.c");
    config.file("efm32-common/emlib/src/em_rtc.c");
    config.file("efm32-common/emlib/src/em_system.c");
    config.file("efm32-common/emlib/src/em_timer.c");

    config.file("src/adc/adc.c");
    config.file("src/ebi/ebi.c");
    config.file("src/emu/emu.c");
    config.file("src/dma/dma.c");
    config.file("src/i2c/i2c.c");
    config.file("src/leuart/leuart.c");
    config.file("src/lesense/lesense.c");
    config.file("src/rtc/rtc.c");
    config.file("src/timer/timer.c");

    config.file("src/acmp/get_acmp.c");
    config.file("src/leuart/get_leuart.c");

    config.include_dir("efm32-common/kits/common/drivers");
    config.file("efm32-common/kits/common/drivers/nandflash.c");
    config.file("efm32-common/kits/common/drivers/dmactrl.c");
    config.file("efm32-common/kits/common/drivers/retargetio.c");

    assert(config@.include_dirs =~= c0.include_dirs + production_include_dirs());
    assert(config@.files =~= c0.files + production_files());
}

/// The test branch: the kit's contribution, then the test and mocking frameworks,
/// the mocks and the test cases.
pub fn test_config(config: &mut BuildConfiguration, kit: KitVariant)
    requires
        old(config).wf(),
    ensures
        final(config).wf(),
        final(config)@ == with_test(with_kit(old(config)@, kit)),
{
    kit.contribute(config);
    let ghost c0 = config@;

    config.define("UNITY_OUTPUT_CHAR", Some("print_char"));
    config.define("NULL", Some("0"));

    config.include_dir("test/lib/Unity/src");
    config.include_dir("test/lib/cmock/src");
    config.include_dir("src/timer");
    config.include_dir("src/adc");

    config.file("test/lib/Unity/src/unity.c");
    config.file("test/lib/cmock/src/cmock.c");
    config.file("test/util/usart_print.c");

    config.include_dir("test/mocks");
    config.file("test/mocks/Mockem_adc.c");
    config.file("test/mocks/Mockem_timer.c");
    config.file("test/mocks/Mockadc.c");
    config.file("test/mocks/Mocktimer.c");

    config.file("test/tests/adc.c");
    config.file("test/tests/timer.c");

    assert(config@.include_dirs =~= c0.include_dirs + test_include_dirs());
    assert(config@.files =~= c0.files + test_files());
}

/// Layers the kit and the profile's own lists on `base`.
pub fn assemble(profile: Profile, base: BuildConfiguration, kit: KitVariant) -> (r:
    BuildConfiguration)
    requires
        base.wf(),
    ensures
        r.wf(),
        r@ == assemble_spec(profile, base@, kit),
{
    let mut config = base;
    match profile {
        Profile::Production => prod_config(&mut config, kit),
        Profile::Test => test_config(&mut config, kit),
    }
    config
}

/// The complete configuration of a build: the profile resolved from the signal, the
/// base for `work_dir`, the kit, and the output archive's name.
pub fn emlib_configuration(profile_signal: Option<String>, kit: KitVariant, work_dir: &str) -> (r:
    BuildConfiguration)
    ensures
        r.wf(),
        r@ == emlib_configuration_spec(profile_signal.deep_view(), kit, work_dir@),
{
    let profile = resolve(profile_signal);
    let mut config = assemble(profile, base(work_dir), kit);
    config.set_output("libcompiler-rt.a");
    config
}

/// `name` is defined by exactly one entry of `defs`.
pub open spec fn defined_once(defs: Seq<DefineView>, name: Seq<char>) -> bool {
    exists|i: int|
        0 <= i < defs.len() && #[trigger] defs[i].0 == name && forall|j: int|
            0 <= j < defs.len() && #[trigger] defs[j].0 == name ==> j == i
}

proof fn lemma_unique_defined_once(defs: Seq<DefineView>, name: Seq<char>)
    requires
        names_unique(defs),
        has_define(defs, name),
    ensures
        defined_once(defs, name),
{
    let i = choose|i: int| 0 <= i < defs.len() && #[trigger] defs[i].0 == name;
    assert forall|j: int| 0 <= j < defs.len() && #[trigger] defs[j].0 == name implies j == i by {
        if j < i {
            assert(defs[j].0 != defs[i].0);
        } else if i < j {
            assert(defs[i].0 != defs[j].0);
        }
    }
}

proof fn lemma_concat_to_set(a: Seq<Seq<char>>, b: Seq<Seq<char>>)
    ensures
        (a + b).to_set() == a.to_set() + b.to_set(),
{
    assert forall|x: Seq<char>| (a + b).to_set().contains(x) <==> (a.to_set() + b.to_set()).contains(
        x,
    ) by {
        if (a + b).contains(x) {
            let k = choose|k: int| 0 <= k < (a + b).len() && (a + b)[k] == x;
            if k < a.len() {
                assert(a[k] == x);
            } else {
                assert(b[k - a.len()] == x);
            }
        }
        if a.contains(x) {
            let k = choose|k: int| 0 <= k < a.len() && a[k] == x;
            assert((a + b)[k] == x);
        }
        if b.contains(x) {
            let k = choose|k: int| 0 <= k < b.len() && b[k] == x;
            assert((a + b)[k + a.len()] == x);
        }
    }
    assert((a + b).to_set() =~= a.to_set() + b.to_set());
}

/// Both profiles extend what they are given: its sources come first and unchanged,
/// at least one source follows, and every name it defines stays defined. With the base
/// as input, production and test each hold strictly more than the base.
pub proof fn lemma_profiles_extend_base(profile: Profile, base: ConfigView, kit: KitVariant)
    requires
        names_unique(base.defines),
    ensures
        assemble_spec(profile, base, kit).files.len() > base.files.len(),
        assemble_spec(profile, base, kit).files.subrange(0, base.files.len() as int) == base.files,
        forall|n: Seq<char>|
            has_define(base.defines, n) ==> has_define(assemble_spec(profile, base, kit).defines, n),
{
    let v = assemble_spec(profile, base, kit);
    assert(v.files.subrange(0, base.files.len() as int) =~= base.files);
    if profile == Profile::Test {
        let d1 = put_define(base.defines, "UNITY_OUTPUT_CHAR"@, Some("print_char"@));
        lemma_put_define(base.defines, "UNITY_OUTPUT_CHAR"@, Some("print_char"@));
        lemma_put_define(d1, "NULL"@, Some("0"@));
    }
}

/// Every assembled configuration defines the device exactly once, whatever the
/// profile and kit, on any starting configuration without duplicate names.
pub proof fn lemma_device_defined_once(
    profile: Profile,
    kit: KitVariant,
    c: ConfigView,
    work_dir: Seq<char>,
)
    requires
        names_unique(c.defines),
    ensures
        defined_once(assemble_spec(profile, with_base(c, work_dir), kit).defines, device_name()),
{
    let b = with_base(c, work_dir);
    lemma_put_define(c.defines, device_name(), None);
    let v = assemble_spec(profile, b, kit);
    if profile == Profile::Test {
        let d1 = put_define(b.defines, "UNITY_OUTPUT_CHAR"@, Some("print_char"@));
        lemma_put_define(b.defines, "UNITY_OUTPUT_CHAR"@, Some("print_char"@));
        lemma_put_define(d1, "NULL"@, Some("0"@));
    }
    lemma_unique_defined_once(v.defines, device_name());
}

/// The configuration that a profile signal selects defines the device exactly once.
pub proof fn lemma_configuration_defines_device_once(
    signal: Option<Seq<char>>,
    kit: KitVariant,
    work_dir: Seq<char>,
)
    ensures
        defined_once(emlib_configuration_spec(signal, kit, work_dir).defines, device_name()),
{
    lemma_device_defined_once(resolve_spec(signal), kit, empty_view(), work_dir);
}

/// Adding the kit after the base gives the base's sources and directories, in their
/// order, followed by the kit's, in theirs; and the same sets of sources and
/// directories, the same definitions and flags, as adding the kit first.
pub proof fn lemma_kit_and_base_commute(c: ConfigView, kit: KitVariant, work_dir: Seq<char>)
    ensures
        with_kit(with_base(c, work_dir), kit).files == c.files + base_files() + kit_files(kit),
        with_kit(with_base(c, work_dir), kit).include_dirs == c.include_dirs + base_include_dirs()
            + kit_include_dirs(kit),
        with_kit(with_base(c, work_dir), kit).files.to_set() == with_base(
            with_kit(c, kit),
            work_dir,
        ).files.to_set(),
        with_kit(with_base(c, work_dir), kit).include_dirs.to_set() == with_base(
            with_kit(c, kit),
            work_dir,
        ).include_dirs.to_set(),
        with_kit(with_base(c, work_dir), kit).defines == with_base(with_kit(c, kit), work_dir).defines,
        with_kit(with_base(c, work_dir), kit).flags == with_base(with_kit(c, kit), work_dir).flags,
{
    lemma_concat_to_set(c.files + base_files(), kit_files(kit));
    lemma_concat_to_set(c.files, base_files());
    lemma_concat_to_set(c.files + kit_files(kit), base_files());
    lemma_concat_to_set(c.files, kit_files(kit));
    assert(c.files.to_set() + base_files().to_set() + kit_files(kit).to_set() =~= c.files.to_set()
        + kit_files(kit).to_set() + base_files().to_set());
    lemma_concat_to_set(c.include_dirs + base_include_dirs(), kit_include_dirs(kit));
    lemma_concat_to_set(c.include_dirs, base_include_dirs());
    lemma_concat_to_set(c.include_dirs + kit_include_dirs(kit), base_include_dirs());
    lemma_concat_to_set(c.include_dirs, kit_include_dirs(kit));
    assert(c.include_dirs.to_set() + base_include_dirs().to_set() + kit_include_dirs(kit).to_set()
        =~= c.include_dirs.to_set() + kit_include_dirs(kit).to_set()
        + base_include_dirs().to_set());
}

/// A source of the test harness: frameworks, mocks, utilities and test cases all
/// live under `test/`.
pub open spec fn is_harness_path(p: Seq<char>) -> bool {
    p.len() >= 5 && p.subrange(0, 5) == "test/"@
}

/// Every source outside the test branch's own list starts with a character other than
/// `t`; every source of that list is a harness source.
proof fn lemma_source_lists_by_first_char(kit: KitVariant)
    ensures
        forall|i: int| 0 <= i < base_files().len() ==> (#[trigger] base_files()[i]).len() > 0
            && base_files()[i][0] != 't',
        forall|i: int| 0 <= i < production_files().len() ==> (#[trigger] production_files()[i]).len()
            > 0 && production_files()[i][0] != 't',
        forall|i: int| 0 <= i < kit_files(kit).len() ==> (#[trigger] kit_files(kit)[i]).len() > 0
            && kit_files(kit)[i][0] != 't',
        forall|i: int| 0 <= i < test_files().len() ==> is_harness_path(#[trigger] test_files()[i]),
{
    reveal_strlit("test/");
    reveal_strlit("efm32-common/Device/EFM32GG/Source/GCC/startup_efm32gg.S");
    reveal_strlit("efm32-common/Device/EFM32GG/Source/system_efm32gg.c");
    reveal_strlit("efm32-common/emlib/src/em_cmu.c");
    reveal_strlit("efm32-common/emlib/src/em_gpio.c");
    reveal_strlit("efm32-common/emlib/src/em_usart.c");
    reveal_strlit("efm32-common/emlib/src/em_emu.c");
    reveal_strlit("efm32-common/emlib/src/em_ebi.c");
    reveal_strlit("efm32-common/emlib/src/em_int.c");
    reveal_strlit("src/chip/chip.c");
    reveal_strlit("src/cmsis/cmsis.c");
    reveal_strlit("src/gpio/gpio.c");
    reveal_strlit("src/irq/irq.c");
    reveal_strlit("src/usart/usart.c");
    reveal_strlit("src/adc/get_adc.c");
    reveal_strlit("src/timer/get_timer.c");
    reveal_strlit("efm32-common/emlib/src/em_acmp.c");
    reveal_strlit("efm32-common/emlib/src/em_adc.c");
    reveal_strlit("efm32-common/emlib/src/em_dma.c");
    reveal_strlit("efm32-common/emlib/src/em_i2c.c");
    reveal_strlit("efm32-common/emlib/src/em_leuart.c");
    reveal_strlit("efm32-common/emlib/src/em_lesense.c");
    reveal_strlit("efm32-common/emlib/src/em_prs.c");
    reveal_strlit("efm32-common/emlib/src/em_rtc.c");
    reveal_strlit("efm32-common/emlib/src/em_system.c");
    reveal_strlit("efm32-common/emlib/src/em_timer.c");
    reveal_strlit("src/adc/adc.c");
    reveal_strlit("src/ebi/ebi.c");
    reveal_strlit("src/emu/emu.c");
    reveal_strlit("src/dma/dma.c");
    reveal_strlit("src/i2c/i2c.c");
    reveal_strlit("src/leuart/leuart.c");
    reveal_strlit("src/lesense/lesense.c");
    reveal_strlit("src/rtc/rtc.c");
    reveal_strlit("src/timer/timer.c");
    reveal_strlit("src/acmp/get_acmp.c");
    reveal_strlit("src/leuart/get_leuart.c");
    reveal_strlit("efm32-common/kits/common/drivers/nandflash.c");
    reveal_strlit("efm32-common/kits/common/drivers/dmactrl.c");
    reveal_strlit("efm32-common/kits/common/drivers/retargetio.c");
    reveal_strlit("efm32-common/kits/common/bsp/bsp_dk_3201.c");
    reveal_strlit("efm32-common/kits/common/bsp/bsp_dk_leds.c");
    reveal_strlit("efm32-common/kits/common/bsp/bsp_stk.c");
    reveal_strlit("efm32-common/kits/common/bsp/bsp_stk_leds.c");
    reveal_strlit("test/lib/Unity/src/unity.c");
    reveal_strlit("test/lib/cmock/src/cmock.c");
    reveal_strlit("test/util/usart_print.c");
    reveal_strlit("test/mocks/Mockem_adc.c");
    reveal_strlit("test/mocks/Mockem_timer.c");
    reveal_strlit("test/mocks/Mockadc.c");
    reveal_strlit("test/mocks/Mocktimer.c");
    reveal_strlit("test/tests/adc.c");
    reveal_strlit("test/tests/timer.c");
    assert forall|i: int| 0 <= i < test_files().len() implies is_harness_path(
        #[trigger] test_files()[i],
    ) by {
        assert(test_files()[i].subrange(0, 5) =~= "test/"@);
    }
}

proof fn lemma_not_harness(p: Seq<char>)
    requires
        p.len() > 0,
        p[0] != 't',
    ensures
        !is_harness_path(p),
{
    reveal_strlit("test/");
    if p.len() >= 5 {
        assert(p.subrange(0, 5)[0] != "test/"@[0]);
    }
}

/// The production and test branches' own source lists share no file.
pub proof fn lemma_profile_lists_disjoint()
    ensures
        forall|i: int, j: int|
            0 <= i < production_files().len() && 0 <= j < test_files().len() ==> #[trigger] production_files()[i]
                != #[trigger] test_files()[j],
{
    lemma_source_lists_by_first_char(KitVariant::Dk3750);
    assert forall|i: int, j: int|
        0 <= i < production_files().len() && 0 <= j < test_files().len() implies #[trigger] production_files()[i]
            != #[trigger] test_files()[j] by {
        lemma_not_harness(production_files()[i]);
    }
}

/// A source found in both the production and the test configuration is one that the
/// kit-adapted base already holds.
pub proof fn lemma_profiles_share_only_base(kit: KitVariant, work_dir: Seq<char>)
    ensures
        forall|f: Seq<char>|
            assemble_spec(Profile::Production, with_base(empty_view(), work_dir), kit).files.contains(f)
                && assemble_spec(Profile::Test, with_base(empty_view(), work_dir), kit).files.contains(
                f,
            ) ==> with_kit(with_base(empty_view(), work_dir), kit).files.contains(f),
{
    let kb = with_kit(with_base(empty_view(), work_dir), kit).files;
    let pf = assemble_spec(Profile::Production, with_base(empty_view(), work_dir), kit).files;
    let tf = assemble_spec(Profile::Test, with_base(empty_view(), work_dir), kit).files;
    lemma_profile_lists_disjoint();
    assert forall|f: Seq<char>| pf.contains(f) && tf.contains(f) implies kb.contains(f) by {
        let i = choose|i: int| 0 <= i < pf.len() && pf[i] == f;
        let j = choose|j: int| 0 <= j < tf.len() && tf[j] == f;
        if i < kb.len() {
            assert(kb[i] == f);
        } else if j < kb.len() {
            assert(kb[j] == f);
        } else {
            assert(production_files()[i - kb.len()] == f);
            assert(test_files()[j - kb.len()] == f);
        }
    }
}

/// No harness source reaches a production configuration, whatever the kit, while every
/// source that the test branch adds is one.
pub proof fn lemma_harness_stays_out_of_production(kit: KitVariant, work_dir: Seq<char>)
    ensures
        forall|i: int|
            0 <= i < assemble_spec(Profile::Production, with_base(empty_view(), work_dir), kit).files.len()
                ==> !is_harness_path(
                #[trigger] assemble_spec(
                    Profile::Production,
                    with_base(empty_view(), work_dir),
                    kit,
                ).files[i],
            ),
        forall|i: int|
            0 <= i < test_files().len() ==> is_harness_path(#[trigger] test_files()[i]),
{
    let v = assemble_spec(Profile::Production, with_base(empty_view(), work_dir), kit);
    let nb = base_files().len() as int;
    let nk = kit_files(kit).len() as int;
    lemma_source_lists_by_first_char(kit);
    assert forall|i: int| 0 <= i < v.files.len() implies !is_harness_path(#[trigger] v.files[i]) by {
        if i < nb {
            assert(v.files[i] == base_files()[i]);
        } else if i < nb + nk {
            assert(v.files[i] == kit_files(kit)[i - nb]);
        } else {
            assert(v.files[i] == production_files()[i - nb - nk]);
        }
        lemma_not_harness(v.files[i]);
    }
}

} // verus!
