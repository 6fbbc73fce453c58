//! Board description for the evaluation board this firmware targets:
//! peripheral base addresses, pin and clock-enable wiring, and the
//! interrupt-line numbering of the vector table.  Pure configuration the
//! drivers consume; the addresses and numbers must match the hardware
//! documentation bit for bit.

use vstd::prelude::*;

use crate::common;

verus! {

/* Register base addresses */
/* Reset and Clock Control */
pub const RCC_BASE: u32 = 0x40021000;

/* General Purpose I/O */
pub const GPIOA_BASE: u32 = 0x42020000;
pub const GPIOB_BASE: u32 = 0x42020400;
pub const GPIOC_BASE: u32 = 0x42020800;
pub const GPIOD_BASE: u32 = 0x42020C00;
pub const GPIOE_BASE: u32 = 0x42021000;
pub const GPIOF_BASE: u32 = 0x42021400;
pub const GPIOG_BASE: u32 = 0x42021800;
pub const GPIOH_BASE: u32 = 0x42021C00;

/* Timers */
pub const TIMER1_BASE: u32 = 0x40012C00;
pub const TIMER2_BASE: u32 = 0x40000000;
pub const TIMER3_BASE: u32 = 0x40000400;
pub const TIMER4_BASE: u32 = 0x40000800;
pub const TIMER5_BASE: u32 = 0x40000C00;
pub const TIMER6_BASE: u32 = 0x40001000;
pub const TIMER7_BASE: u32 = 0x40001400;
pub const TIMER8_BASE: u32 = 0x40013400;
pub const TIMER15_BASE: u32 = 0x40014000;
pub const TIMER16_BASE: u32 = 0x40014400;
pub const TIMER17_BASE: u32 = 0x40014800;

/* Asynchronous serial */
pub const USART1_BASE: u32 = 0x40013800;
pub const USART2_BASE: u32 = 0x40004400;
pub const USART3_BASE: u32 = 0x40004800;
pub const USART4_BASE: u32 = 0x40004C00;
pub const USART5_BASE: u32 = 0x40005000;

/* Clocked master bus */
pub const I2C1_BASE: u32 = 0x40005400;
pub const I2C2_BASE: u32 = 0x40005800;
pub const I2C3_BASE: u32 = 0x40005C00;

/* Shift-register bus */
pub const SPI1_BASE: u32 = 0x40013000;
pub const SPI2_BASE: u32 = 0x40003800;
pub const SPI3_BASE: u32 = 0x40003C00;

/* Controller area network */
pub const CAN_BASE: u32 = 0x4000A400;

/* Interrupt controller */
pub const NVIC_BASE: u32 = 0xE000E100;

/* Clock-enable bits */
pub const RCC_GPIOA_AHB2EN: u32 = common::BIT_0;
pub const RCC_GPIOB_AHB2EN: u32 = common::BIT_1;
pub const RCC_GPIOC_AHB2EN: u32 = common::BIT_2;
pub const RCC_GPIOD_AHB2EN: u32 = common::BIT_3;
pub const RCC_GPIOE_AHB2EN: u32 = common::BIT_4;
pub const RCC_GPIOF_AHB2EN: u32 = common::BIT_5;
pub const TIMER2_RCC_APB1R1_ENABLE: u32 = common::BIT_0;
pub const TIMER3_RCC_APB1R1_ENABLE: u32 = common::BIT_1;
pub const USART2_RCC_APB1R1_ENABLE: u32 = common::BIT_17;
pub const USART3_RCC_APB1R1_ENABLE: u32 = common::BIT_18;
pub const I2C1_RCC_APB1R1_ENABLE: u32 = common::BIT_21;
pub const CAN_RCC_APB1R1_ENABLE: u32 = common::BIT_25;
pub const SPI1_RCC_APB2R_ENABLE: u32 = common::BIT_12;
pub const SPI3_RCC_APB1R1_ENABLE: u32 = common::BIT_15;

/* User LEDs */
pub const GPIOC_PIN7: u32 = 7;
pub const LED_GRN_PIN: u32 = GPIOC_PIN7;
pub const LED_GRN: u32 = common::BIT_7;
pub const GPIOB_PIN7: u32 = 7;
pub const LED_BLU_PIN: u32 = GPIOB_PIN7;
pub const LED_BLU: u32 = common::BIT_7;
pub const GPIOA_PIN9: u32 = 9;
pub const LED_RED_PIN: u32 = GPIOA_PIN9;
pub const LED_RED: u32 = common::BIT_9;

/* Timer pulse-width-modulation pins */
pub const GPIOE_PIN3: u32 = 3;
pub const TIM3_PWM1_PIN: u32 = GPIOE_PIN3;
pub const GPIOE_PIN4: u32 = 4;
pub const TIM3_PWM2_PIN: u32 = GPIOE_PIN4;
pub const GPIOE_PIN5: u32 = 5;
pub const TIM3_PWM3_PIN: u32 = GPIOE_PIN5;

/* Serial pins */
pub const PORTA_PIN2: u32 = 2;
pub const PORTA_PIN3: u32 = 3;
pub const USART2_TX: u32 = PORTA_PIN2;
pub const USART2_RX: u32 = PORTA_PIN3;
pub const PORTD_PIN8: u32 = 8;
pub const PORTD_PIN9: u32 = 9;
pub const USART3_TX: u32 = PORTD_PIN8;
pub const USART3_RX: u32 = PORTD_PIN9;

/* Clocked-bus pins */
pub const PORTB_PIN6: u32 = 6;
pub const PORTB_PIN7: u32 = 7;
pub const I2C1_SCL: u32 = PORTB_PIN6;
pub const I2C1_SDA: u32 = PORTB_PIN7;

/* Network-controller pins */
pub const PORTA_PIN11: u32 = 11;
pub const PORTA_PIN12: u32 = 12;
pub const CAN_RX: u32 = PORTA_PIN11;
pub const CAN_TX: u32 = PORTA_PIN12;

/* Shift-register-bus pins */
pub const PORTB_PIN4: u32 = 4;
pub const SPI1_MISO: u32 = PORTB_PIN4;
pub const PORTB_PIN5: u32 = 5;
pub const SPI1_MOSI: u32 = PORTB_PIN5;
pub const PORTB_PIN3: u32 = 3;
pub const SPI1_SCK: u32 = PORTB_PIN3;
pub const PORTA_PIN4: u32 = 4;
pub const SPI1_NSS: u32 = PORTA_PIN4;
pub const PORTA_PIN7: u32 = 7;
pub const SPI1_SS: u32 = PORTA_PIN7;

/// The interrupt lines of the vector table, named as the hardware
/// documentation names them.
#[derive(Clone, Copy, PartialEq, Eq, Structural, Debug)]
#[allow(non_camel_case_types)]
pub enum NvicIrq {
    WWDG_IRQ,
    PDV_PVM_IRQ,
    RTC_IRQ,
    RTC_S_IRQ,
    TAMP_IRQ,
    TAMP_S_IRQ,
    FLASH_IRQ,
    FLASH_S_IRQ,
    GTZC_IRQ,
    RCC_IRQ,
    RCC_S_IRQ,
    EXTI0_IRQ,
    EXTI1_IRQ,
    EXTI2_IRQ,
    EXTI3_IRQ,
    EXTI4_IRQ,
    EXTI5_IRQ,
    EXTI6_IRQ,
    EXTI7_IRQ,
    EXTI8_IRQ,
    EXTI9_IRQ,
    EXTI10_IRQ,
    EXTI11_IRQ,
    EXTI12_IRQ,
    EXTI13_IRQ,
    EXTI14_IRQ,
    EXTI15_IRQ,
    DMAMUX1_IRQ,
    DMAMUX1_S_IRQ,
    DMA1_Channel1_IRQ,
    DMA1_Channel2_IRQ,
    DMA1_Channel3_IRQ,
    DMA1_Channel4_IRQ,
    DMA1_Channel5_IRQ,
    DMA1_Channel6_IRQ,
    DMA1_Channel7_IRQ,
    DMA1_Channel8_IRQ,
    ADC1_2_IRQ,
    DAC_IRQ,
    FDCAN1_IT0_IRQ,
    FDCAN1_IT1_IRQ,
    TIM1_BRK_IRQ,
    TIM1_UP_IRQ,
    TIM1_TRG_COM_IRQ,
    TIM1_CC_IRQ,
    TIM2_IRQ,
    TIM3_IRQ,
    TIM4_IRQ,
    TIM5_IRQ,
    TIM6_IRQ,
    TIM7_IRQ,
    TIM8_BRK_IRQ,
    TIM8_UP_IRQ,
    TIM8_TRG_COM_IRQ,
    TIM8_CC_IRQ,
    I2C1_EV_IRQ,
    I2C1_ER_IRQ,
    I2C2_EV_IRQ,
    I2C2_ER_IRQ,
    SPI1_IRQ,
    SPI2_IRQ,
    USART1_IRQ,
    USART2_IRQ,
    USART3_IRQ,
    UART4_IRQ,
    UART5_IRQ,
    LPUART1_IRQ,
    LPTIM1_IRQ,
    LPTIM2_IRQ,
    TIM15_IRQ,
    TIM16_IRQ,
    TIM17_IRQ,
    COMP_IRQ,
    USB_FS_IRQ,
    CRS_IRQ,
    FMC_IRQ,
    OCTOSPI1_IRQ,
    SDMMC1_IRQ,
    DMA2_Channel1_IRQ,
    DMA2_Channel2_IRQ,
    DMA2_Channel3_IRQ,
    DMA2_Channel4_IRQ,
    DMA2_Channel5_IRQ,
    DMA2_Channel6_IRQ,
    DMA2_Channel7_IRQ,
    DMA2_Channel8_IRQ,
    I2C3_EV_IRQ,
    I2C3_ER_IRQ,
    SAI1_IRQ,
    SAI2_IRQ,
    TSC_IRQ,
    RNG_IRQ,
    FPU_IRQ,
    HASH_IRQ,
    LPTIM3_IRQ,
    SPI3_IRQ,
    I2C4_ER_IRQ,
    I2C4_EV_IRQ,
    DFSDM1_FLT0_IRQ,
    DFSDM1_FLT1_IRQ,
    DFSDM1_FLT2_IRQ,
    DFSDM1_FLT3_IRQ,
    UCPD1_IRQ,
    ICACHE_IRQ,
}

/// The vector-table number of an interrupt line.
pub open spec fn spec_irq_number(irq: NvicIrq) -> u32 {
    match irq {
        NvicIrq::WWDG_IRQ => 0,
        NvicIrq::PDV_PVM_IRQ => 1,
        NvicIrq::RTC_IRQ => 2,
        NvicIrq::RTC_S_IRQ => 3,
        NvicIrq::TAMP_IRQ => 4,
        NvicIrq::TAMP_S_IRQ => 5,
        NvicIrq::FLASH_IRQ => 6,
        NvicIrq::FLASH_S_IRQ => 7,
        NvicIrq::GTZC_IRQ => 8,
        NvicIrq::RCC_IRQ => 9,
        NvicIrq::RCC_S_IRQ => 10,
        NvicIrq::EXTI0_IRQ => 11,
        NvicIrq::EXTI1_IRQ => 12,
        NvicIrq::EXTI2_IRQ => 13,
        NvicIrq::EXTI3_IRQ => 14,
        NvicIrq::EXTI4_IRQ => 15,
        NvicIrq::EXTI5_IRQ => 16,
        NvicIrq::EXTI6_IRQ => 17,
        NvicIrq::EXTI7_IRQ => 18,
        NvicIrq::EXTI8_IRQ => 19,
        NvicIrq::EXTI9_IRQ => 20,
        NvicIrq::EXTI10_IRQ => 21,
        NvicIrq::EXTI11_IRQ => 22,
        NvicIrq::EXTI12_IRQ => 23,
        NvicIrq::EXTI13_IRQ => 24,
        NvicIrq::EXTI14_IRQ => 25,
        NvicIrq::EXTI15_IRQ => 26,
        NvicIrq::DMAMUX1_IRQ => 27,
        NvicIrq::DMAMUX1_S_IRQ => 28,
        NvicIrq::DMA1_Channel1_IRQ => 29,
        NvicIrq::DMA1_Channel2_IRQ => 30,
        NvicIrq::DMA1_Channel3_IRQ => 31,
        NvicIrq::DMA1_Channel4_IRQ => 32,
        NvicIrq::DMA1_Channel5_IRQ => 33,
        NvicIrq::DMA1_Channel6_IRQ => 34,
        NvicIrq::DMA1_Channel7_IRQ => 35,
        NvicIrq::DMA1_Channel8_IRQ => 36,
        NvicIrq::ADC1_2_IRQ => 37,
        NvicIrq::DAC_IRQ => 38,
        NvicIrq::FDCAN1_IT0_IRQ => 39,
        NvicIrq::FDCAN1_IT1_IRQ => 40,
        NvicIrq::TIM1_BRK_IRQ => 41,
        NvicIrq::TIM1_UP_IRQ => 42,
        NvicIrq::TIM1_TRG_COM_IRQ => 43,
        NvicIrq::TIM1_CC_IRQ => 44,
        NvicIrq::TIM2_IRQ => 45,
        NvicIrq::TIM3_IRQ => 46,
        NvicIrq::TIM4_IRQ => 47,
        NvicIrq::TIM5_IRQ => 48,
        NvicIrq::TIM6_IRQ => 49,
        NvicIrq::TIM7_IRQ => 50,
        NvicIrq::TIM8_BRK_IRQ => 51,
        NvicIrq::TIM8_UP_IRQ => 52,
        NvicIrq::TIM8_TRG_COM_IRQ => 53,
        NvicIrq::TIM8_CC_IRQ => 54,
        NvicIrq::I2C1_EV_IRQ => 55,
        NvicIrq::I2C1_ER_IRQ => 56,
        NvicIrq::I2C2_EV_IRQ => 57,
        NvicIrq::I2C2_ER_IRQ => 58,
        NvicIrq::SPI1_IRQ => 59,
        NvicIrq::SPI2_IRQ => 60,
        NvicIrq::USART1_IRQ => 61,
        NvicIrq::USART2_IRQ => 62,
        NvicIrq::USART3_IRQ => 63,
        NvicIrq::UART4_IRQ => 64,
        NvicIrq::UART5_IRQ => 65,
        NvicIrq::LPUART1_IRQ => 66,
        NvicIrq::LPTIM1_IRQ => 67,
        NvicIrq::LPTIM2_IRQ => 68,
        NvicIrq::TIM15_IRQ => 69,
        NvicIrq::TIM16_IRQ => 70,
        NvicIrq::TIM17_IRQ => 71,
        NvicIrq::COMP_IRQ => 72,
        NvicIrq::USB_FS_IRQ => 73,
        NvicIrq::CRS_IRQ => 74,
        NvicIrq::FMC_IRQ => 75,
        NvicIrq::OCTOSPI1_IRQ => 76,
        NvicIrq::SDMMC1_IRQ => 78,
        NvicIrq::DMA2_Channel1_IRQ => 80,
        NvicIrq::DMA2_Channel2_IRQ => 81,
        NvicIrq::DMA2_Channel3_IRQ => 82,
        NvicIrq::DMA2_Channel4_IRQ => 83,
        NvicIrq::DMA2_Channel5_IRQ => 84,
        NvicIrq::DMA2_Channel6_IRQ => 85,
        NvicIrq::DMA2_Channel7_IRQ => 86,
        NvicIrq::DMA2_Channel8_IRQ => 87,
        NvicIrq::I2C3_EV_IRQ => 88,
        NvicIrq::I2C3_ER_IRQ => 89,
        NvicIrq::SAI1_IRQ => 90,
        NvicIrq::SAI2_IRQ => 91,
        NvicIrq::TSC_IRQ => 92,
        NvicIrq::RNG_IRQ => 94,
        NvicIrq::FPU_IRQ => 95,
        NvicIrq::HASH_IRQ => 96,
        NvicIrq::LPTIM3_IRQ => 98,
        NvicIrq::SPI3_IRQ => 99,
        NvicIrq::I2C4_ER_IRQ => 100,
        NvicIrq::I2C4_EV_IRQ => 101,
        NvicIrq::DFSDM1_FLT0_IRQ => 102,
        NvicIrq::DFSDM1_FLT1_IRQ => 103,
        NvicIrq::DFSDM1_FLT2_IRQ => 104,
        NvicIrq::DFSDM1_FLT3_IRQ => 105,
        NvicIrq::UCPD1_IRQ => 106,
        NvicIrq::ICACHE_IRQ => 107,
    }
}

/// The vector-table number of an interrupt line.
#[verifier::when_used_as_spec(spec_irq_number)]
pub fn irq_number(irq: NvicIrq) -> (n: u32)
    ensures
        n == spec_irq_number(irq),
        n < crate::nvic::IRQ_LINES,
{
    match irq {
        NvicIrq::WWDG_IRQ => 0,
        NvicIrq::PDV_PVM_IRQ => 1,
        NvicIrq::RTC_IRQ => 2,
        NvicIrq::RTC_S_IRQ => 3,
        NvicIrq::TAMP_IRQ => 4,
        NvicIrq::TAMP_S_IRQ => 5,
        NvicIrq::FLASH_IRQ => 6,
        NvicIrq::FLASH_S_IRQ => 7,
        NvicIrq::GTZC_IRQ => 8,
        NvicIrq::RCC_IRQ => 9,
        NvicIrq::RCC_S_IRQ => 10,
        NvicIrq::EXTI0_IRQ => 11,
        NvicIrq::EXTI1_IRQ => 12,
        NvicIrq::EXTI2_IRQ => 13,
        NvicIrq::EXTI3_IRQ => 14,
        NvicIrq::EXTI4_IRQ => 15,
        NvicIrq::EXTI5_IRQ => 16,
        NvicIrq::EXTI6_IRQ => 17,
        NvicIrq::EXTI7_IRQ => 18,
        NvicIrq::EXTI8_IRQ => 19,
        NvicIrq::EXTI9_IRQ => 20,
        NvicIrq::EXTI10_IRQ => 21,
        NvicIrq::EXTI11_IRQ => 22,
        NvicIrq::EXTI12_IRQ => 23,
        NvicIrq::EXTI13_IRQ => 24,
        NvicIrq::EXTI14_IRQ => 25,
        NvicIrq::EXTI15_IRQ => 26,
        NvicIrq::DMAMUX1_IRQ => 27,
        NvicIrq::DMAMUX1_S_IRQ => 28,
        NvicIrq::DMA1_Channel1_IRQ => 29,
        NvicIrq::DMA1_Channel2_IRQ => 30,
        NvicIrq::DMA1_Channel3_IRQ => 31,
        NvicIrq::DMA1_Channel4_IRQ => 32,
        NvicIrq::DMA1_Channel5_IRQ => 33,
        NvicIrq::DMA1_Channel6_IRQ => 34,
        NvicIrq::DMA1_Channel7_IRQ => 35,
        NvicIrq::DMA1_Channel8_IRQ => 36,
        NvicIrq::ADC1_2_IRQ => 37,
        NvicIrq::DAC_IRQ => 38,
        NvicIrq::FDCAN1_IT0_IRQ => 39,
        NvicIrq::FDCAN1_IT1_IRQ => 40,
        NvicIrq::TIM1_BRK_IRQ => 41,
        NvicIrq::TIM1_UP_IRQ => 42,
        NvicIrq::TIM1_TRG_COM_IRQ => 43,
        NvicIrq::TIM1_CC_IRQ => 44,
        NvicIrq::TIM2_IRQ => 45,
        NvicIrq::TIM3_IRQ => 46,
        NvicIrq::TIM4_IRQ => 47,
        NvicIrq::TIM5_IRQ => 48,
        NvicIrq::TIM6_IRQ => 49,
        NvicIrq::TIM7_IRQ => 50,
        NvicIrq::TIM8_BRK_IRQ => 51,
        NvicIrq::TIM8_UP_IRQ => 52,
        NvicIrq::TIM8_TRG_COM_IRQ => 53,
        NvicIrq::TIM8_CC_IRQ => 54,
        NvicIrq::I2C1_EV_IRQ => 55,
        NvicIrq::I2C1_ER_IRQ => 56,
        NvicIrq::I2C2_EV_IRQ => 57,
        NvicIrq::I2C2_ER_IRQ => 58,
        NvicIrq::SPI1_IRQ => 59,
        NvicIrq::SPI2_IRQ => 60,
        NvicIrq::USART1_IRQ => 61,
        NvicIrq::USART2_IRQ => 62,
        NvicIrq::USART3_IRQ => 63,
        NvicIrq::UART4_IRQ => 64,
        NvicIrq::UART5_IRQ => 65,
        NvicIrq::LPUART1_IRQ => 66,
        NvicIrq::LPTIM1_IRQ => 67,
        NvicIrq::LPTIM2_IRQ => 68,
        NvicIrq::TIM15_IRQ => 69,
        NvicIrq::TIM16_IRQ => 70,
        NvicIrq::TIM17_IRQ => 71,
        NvicIrq::COMP_IRQ => 72,
        NvicIrq::USB_FS_IRQ => 73,
        NvicIrq::CRS_IRQ => 74,
        NvicIrq::FMC_IRQ => 75,
        NvicIrq::OCTOSPI1_IRQ => 76,
        NvicIrq::SDMMC1_IRQ => 78,
        NvicIrq::DMA2_Channel1_IRQ => 80,
        NvicIrq::DMA2_Channel2_IRQ => 81,
        NvicIrq::DMA2_Channel3_IRQ => 82,
        NvicIrq::DMA2_Channel4_IRQ => 83,
        NvicIrq::DMA2_Channel5_IRQ => 84,
        NvicIrq::DMA2_Channel6_IRQ => 85,
        NvicIrq::DMA2_Channel7_IRQ => 86,
        NvicIrq::DMA2_Channel8_IRQ => 87,
        NvicIrq::I2C3_EV_IRQ => 88,
        NvicIrq::I2C3_ER_IRQ => 89,
        NvicIrq::SAI1_IRQ => 90,
        NvicIrq::SAI2_IRQ => 91,
        NvicIrq::TSC_IRQ => 92,
        NvicIrq::RNG_IRQ => 94,
        NvicIrq::FPU_IRQ => 95,
        NvicIrq::HASH_IRQ => 96,
        NvicIrq::LPTIM3_IRQ => 98,
        NvicIrq::SPI3_IRQ => 99,
        NvicIrq::I2C4_ER_IRQ => 100,
        NvicIrq::I2C4_EV_IRQ => 101,
        NvicIrq::DFSDM1_FLT0_IRQ => 102,
        NvicIrq::DFSDM1_FLT1_IRQ => 103,
        NvicIrq::DFSDM1_FLT2_IRQ => 104,
        NvicIrq::DFSDM1_FLT3_IRQ => 105,
        NvicIrq::UCPD1_IRQ => 106,
        NvicIrq::ICACHE_IRQ => 107,
    }
}

} // verus!
