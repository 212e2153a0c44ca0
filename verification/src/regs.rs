//! Register map of the STM32F413 and the fixed memory layout of the hub.
use vstd::prelude::*;

verus! {

// Peripheral base addresses.
pub const RCC: u32 = 0x4002_3800;

pub const FLASH_R: u32 = 0x4002_3C00;

pub const GPIOA: u32 = 0x4002_0000;

pub const GPIOB: u32 = 0x4002_0400;

pub const GPIOC: u32 = 0x4002_0800;

pub const GPIOE: u32 = 0x4002_1000;

pub const SPI1: u32 = 0x4001_3000;

pub const ADC1: u32 = 0x4001_2000;

pub const SYSCFG: u32 = 0x4001_3800;

pub const TIM1: u32 = 0x4001_0000;

pub const TIM3: u32 = 0x4000_0400;

pub const TIM4: u32 = 0x4000_0800;

pub const TIM12: u32 = 0x4000_1800;

// RCC offsets.
pub const RCC_CR: u32 = 0x00;

pub const RCC_PLLCFGR: u32 = 0x04;

pub const RCC_CFGR: u32 = 0x08;

pub const RCC_AHB2RSTR: u32 = 0x14;

pub const RCC_AHB1ENR: u32 = 0x30;

pub const RCC_AHB2ENR: u32 = 0x34;

pub const RCC_APB1ENR: u32 = 0x40;

pub const RCC_APB2ENR: u32 = 0x44;

// FLASH offsets.
pub const FLASH_ACR: u32 = 0x00;

pub const FLASH_KEYR: u32 = 0x04;

pub const FLASH_OPTKEYR: u32 = 0x08;

pub const FLASH_SR: u32 = 0x0C;

pub const FLASH_CR: u32 = 0x10;

pub const FLASH_OPTCR: u32 = 0x14;

// GPIO offsets.
pub const GPIO_MODER: u32 = 0x00;

pub const GPIO_OSPEEDR: u32 = 0x08;

pub const GPIO_IDR: u32 = 0x10;

pub const GPIO_ODR: u32 = 0x14;

pub const GPIO_BSRR: u32 = 0x18;

pub const GPIO_AFRL: u32 = 0x20;

pub const GPIO_AFRH: u32 = 0x24;

// Timer offsets.
pub const TIM_CR1: u32 = 0x00;

pub const TIM_EGR: u32 = 0x14;

pub const TIM_CCMR1: u32 = 0x18;

pub const TIM_CCMR2: u32 = 0x1C;

pub const TIM_CCER: u32 = 0x20;

pub const TIM_PSC: u32 = 0x28;

pub const TIM_ARR: u32 = 0x2C;

pub const TIM_CCR1: u32 = 0x34;

pub const TIM_CCR2: u32 = 0x38;

pub const TIM_CCR3: u32 = 0x3C;

pub const TIM_CCR4: u32 = 0x40;

pub const TIM_BDTR: u32 = 0x44;

// SPI offsets.
pub const SPI_CR1: u32 = 0x00;

pub const SPI_SR: u32 = 0x08;

pub const SPI_DR: u32 = 0x0C;

// ADC offsets.
pub const ADC_SR: u32 = 0x00;

pub const ADC_CR1: u32 = 0x04;

pub const ADC_CR2: u32 = 0x08;

pub const ADC_SMPR1: u32 = 0x0C;

pub const ADC_SMPR2: u32 = 0x10;

pub const ADC_SQR1: u32 = 0x2C;

pub const ADC_SQR3: u32 = 0x34;

pub const ADC_DR: u32 = 0x4C;

/// Common control register shared by the ADCs.
pub const ADC_CCR: u32 = 0x4001_2304;

// Core peripherals.
pub const SYST_CSR: u32 = 0xE000_E010;

pub const SYST_RVR: u32 = 0xE000_E014;

pub const SYST_CVR: u32 = 0xE000_E018;

pub const NVIC_ICER: u32 = 0xE000_E180;

pub const NVIC_ICPR: u32 = 0xE000_E280;

pub const SCB_ICSR: u32 = 0xE000_ED04;

pub const SCB_VTOR: u32 = 0xE000_ED08;

pub const SCB_SHPR3: u32 = 0xE000_ED20;

pub const SCB_DFSR: u32 = 0xE000_ED30;

/// Memory protection unit: control, region number, base, attributes and size.
pub const MPU_CTRL: u32 = 0xE000_ED94;

pub const MPU_RNR: u32 = 0xE000_ED98;

pub const MPU_RBAR: u32 = 0xE000_ED9C;

pub const MPU_RASR: u32 = 0xE000_EDA0;

pub const SCB_DHCSR: u32 = 0xE000_EDF0;

pub const SCB_DEMCR: u32 = 0xE000_EDFC;

/// Flash Patch and Breakpoint unit: control register and first comparator.
pub const FPB_CTRL: u32 = 0xE000_2000;

pub const FPB_COMP_BASE: u32 = 0xE000_2008;

/// The STM32F413 has six instruction comparators.
pub const FPB_MAX_COMP: usize = 6;

/// Data Watchpoint and Trace unit: first comparator and its layout.
pub const DWT_COMP_BASE: u32 = 0xE000_1020;

pub const DWT_MASK_OFFSET: u32 = 0x04;

pub const DWT_FUNCTION_OFFSET: u32 = 0x08;

pub const DWT_COMP_SPACING: u32 = 0x10;

/// The STM32F413 has four data comparators.
pub const DWT_MAX_COMP: usize = 4;

// Last address of each debug unit.
pub const FPB_END: u32 = 0xE000_2FFF;

pub const DWT_END: u32 = 0xE000_1FFF;

// Fixed addresses.
/// The monitor's own flash and RAM.
pub const MONITOR_FLASH: u32 = 0x0800_8000;

pub const MONITOR_RAM: u32 = 0x2004_E000;

/// First byte of the application image: its vector table.
pub const APP_ADDR: u32 = 0x0801_0000;

/// Last address past flash.
pub const FLASH_END: u32 = 0x0810_0000;

/// First address past the flash sector that an upload programs.
pub const UPLOAD_END: u32 = 0x0802_0000;

pub const RAM_START: u32 = 0x2000_0000;

pub const RAM_END: u32 = 0x2005_0000;

/// First address past the region that the instruction comparators cover.
pub const CODE_END: u32 = 0x2000_0000;

/// Vector table of the ROM bootloader.
pub const SYSTEM_MEMORY: u32 = 0x1FFF_0000;

/// RAM word that survives a reset and asks the next boot for DFU.
pub const DFU_MAGIC_ADDR: u32 = 0x2004_FFF0;

pub const DFU_MAGIC_VALUE: u32 = 0xDEAD_B007;

/// RAM words through which an application forwards its exceptions to the monitor.
pub const TRAMPOLINE_ADDR: u32 = 0x2004_FFE0;

pub const SYSTICK_TRAMPOLINE: u32 = 0x2004_FFE4;

/// Every register and every bound of the memory layout by its number.
pub proof fn map_by_number()
    ensures
        RCC == 0x4002_3800,
        FLASH_R == 0x4002_3C00,
        GPIOA == 0x4002_0000,
        GPIOB == 0x4002_0400,
        GPIOC == 0x4002_0800,
        GPIOE == 0x4002_1000,
        SPI1 == 0x4001_3000,
        ADC1 == 0x4001_2000,
        SYSCFG == 0x4001_3800,
        TIM1 == 0x4001_0000,
        TIM3 == 0x4000_0400,
        TIM4 == 0x4000_0800,
        TIM12 == 0x4000_1800,
        RCC_CR == 0x00,
        RCC_PLLCFGR == 0x04,
        RCC_CFGR == 0x08,
        RCC_AHB2RSTR == 0x14,
        RCC_AHB1ENR == 0x30,
        RCC_AHB2ENR == 0x34,
        RCC_APB1ENR == 0x40,
        RCC_APB2ENR == 0x44,
        FLASH_ACR == 0x00,
        FLASH_KEYR == 0x04,
        FLASH_OPTKEYR == 0x08,
        FLASH_SR == 0x0C,
        FLASH_CR == 0x10,
        FLASH_OPTCR == 0x14,
        GPIO_MODER == 0x00,
        GPIO_OSPEEDR == 0x08,
        GPIO_IDR == 0x10,
        GPIO_ODR == 0x14,
        GPIO_BSRR == 0x18,
        GPIO_AFRL == 0x20,
        GPIO_AFRH == 0x24,
        TIM_CR1 == 0x00,
        TIM_EGR == 0x14,
        TIM_CCMR1 == 0x18,
        TIM_CCMR2 == 0x1C,
        TIM_CCER == 0x20,
        TIM_PSC == 0x28,
        TIM_ARR == 0x2C,
        TIM_CCR1 == 0x34,
        TIM_CCR2 == 0x38,
        TIM_CCR3 == 0x3C,
        TIM_CCR4 == 0x40,
        TIM_BDTR == 0x44,
        SPI_CR1 == 0x00,
        SPI_SR == 0x08,
        SPI_DR == 0x0C,
        ADC_SR == 0x00,
        ADC_CR1 == 0x04,
        ADC_CR2 == 0x08,
        ADC_SMPR1 == 0x0C,
        ADC_SMPR2 == 0x10,
        ADC_SQR1 == 0x2C,
        ADC_SQR3 == 0x34,
        ADC_DR == 0x4C,
        ADC_CCR == 0x4001_2304,
        SYST_CSR == 0xE000_E010,
        SYST_RVR == 0xE000_E014,
        SYST_CVR == 0xE000_E018,
        NVIC_ICER == 0xE000_E180,
        NVIC_ICPR == 0xE000_E280,
        SCB_ICSR == 0xE000_ED04,
        SCB_VTOR == 0xE000_ED08,
        SCB_SHPR3 == 0xE000_ED20,
        SCB_DFSR == 0xE000_ED30,
        MPU_CTRL == 0xE000_ED94,
        MPU_RNR == 0xE000_ED98,
        MPU_RBAR == 0xE000_ED9C,
        MPU_RASR == 0xE000_EDA0,
        SCB_DHCSR == 0xE000_EDF0,
        SCB_DEMCR == 0xE000_EDFC,
        FPB_CTRL == 0xE000_2000,
        FPB_COMP_BASE == 0xE000_2008,
        FPB_MAX_COMP == 6,
        DWT_COMP_BASE == 0xE000_1020,
        DWT_MASK_OFFSET == 0x04,
        DWT_FUNCTION_OFFSET == 0x08,
        DWT_COMP_SPACING == 0x10,
        DWT_MAX_COMP == 4,
        FPB_END == 0xE000_2FFF,
        DWT_END == 0xE000_1FFF,
        MONITOR_FLASH == 0x0800_8000,
        MONITOR_RAM == 0x2004_E000,
        APP_ADDR == 0x0801_0000,
        FLASH_END == 0x0810_0000,
        UPLOAD_END == 0x0802_0000,
        RAM_START == 0x2000_0000,
        RAM_END == 0x2005_0000,
        CODE_END == 0x2000_0000,
        SYSTEM_MEMORY == 0x1FFF_0000,
        DFU_MAGIC_ADDR == 0x2004_FFF0,
        DFU_MAGIC_VALUE == 0xDEAD_B007,
        TRAMPOLINE_ADDR == 0x2004_FFE0,
        SYSTICK_TRAMPOLINE == 0x2004_FFE4,
{
}

} // verus!
