use vstd::prelude::*;
use crate::config::{BuildConfiguration, ConfigView};

verus! {

/// The development kit the firmware is built for; exactly one is chosen per build.
#[derive(Clone, Copy, Debug, PartialEq, Eq, Structural)]
pub enum KitVariant {
    /// EFM32GG DK3750 development kit.
    Dk3750,
    /// EFM32 Giant Gecko STK3700 starter kit.
    Stk3700,
}

pub open spec fn kit_include_dirs(kit: KitVariant) -> Seq<Seq<char>> {
    match kit {
        KitVariant::Dk3750 => seq!["efm32-common/kits/EFM32GG_DK3750/config"@],
        KitVariant::Stk3700 => seq!["efm32-common/kits/EFM32GG_STK3700/config"@],
    }
}

pub open spec fn kit_files(kit: KitVariant) -> Seq<Seq<char>> {
    match kit {
        KitVariant::Dk3750 => seq![
            "efm32-common/kits/common/bsp/bsp_dk_3201.c"@,
            "efm32-common/kits/common/bsp/bsp_dk_leds.c"@,
        ],
        KitVariant::Stk3700 => seq![
            "efm32-common/kits/common/bsp/bsp_stk.c"@,
            "efm32-common/kits/common/bsp/bsp_stk_leds.c"@,
        ],
    }
}

/// The kit's contribution, appended after what the configuration already holds.
pub open spec fn with_kit(c: ConfigView, kit: KitVariant) -> ConfigView {
    ConfigView {
        include_dirs: c.include_dirs + kit_include_dirs(kit),
        files: c.files + kit_files(kit),
        ..c
    }
}

impl KitVariant {
    /// Adds the kit's header directories and board-support sources to `config`.
    pub fn contribute(&self, config: &mut BuildConfiguration)
        requires
            old(config).wf(),
        ensures
            final(config).wf(),
            final(config)@ == with_kit(old(config)@, *self),
    {
        let ghost c0 = config@;
        match self {
            KitVariant::Dk3750 => {
                config.include_dir("efm32-common/kits/EFM32GG_DK3750/config");
                config.file("efm32-common/kits/common/bsp/bsp_dk_3201.c");
                config.file("efm32-common/kits/common/bsp/bsp_dk_leds.c");
            },
            KitVariant::Stk3700 => {
                config.include_dir("efm32-common/kits/EFM32GG_STK3700/config");
                config.file("efm32-common/kits/common/bsp/bsp_stk.c");
                config.file("efm32-common/kits/common/bsp/bsp_stk_leds.c");
            },
        }
        assert(config@.include_dirs =~= c0.include_dirs + kit_include_dirs(*self));
        assert(config@.files =~= c0.files + kit_files(*self));
    }
}

} // verus!
