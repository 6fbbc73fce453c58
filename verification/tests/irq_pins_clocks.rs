//! The interrupt controller's line decomposition and out-of-range
//! refusal, pin configuration, clock control and the clock-range
//! helpers.

use l552ze_hal::board;
use l552ze_hal::board::NvicIrq;
use l552ze_hal::common;
use l552ze_hal::common::BusError;
use l552ze_hal::common::MsiRange;
use l552ze_hal::gpio::AltFunc;
use l552ze_hal::gpio::Gpio;
use l552ze_hal::gpio::Mode;
use l552ze_hal::gpio::OSpeed;
use l552ze_hal::gpio::OType;
use l552ze_hal::gpio::Pupd;
use l552ze_hal::nvic::Nvic;
use l552ze_hal::rcc::Rcc;

#[test]
fn interrupt_enable_boundary_lines() {
    let mut nvic = Nvic::init(board::NVIC_BASE);

    assert_eq!(nvic.set_interrupt(0), Ok(()));
    assert_eq!(nvic.registers.iser[0], 1 << 0);

    assert_eq!(nvic.set_interrupt(31), Ok(()));
    assert_eq!(nvic.registers.iser[0], (1 << 0) | (1u32 << 31));

    assert_eq!(nvic.set_interrupt(32), Ok(()));
    assert_eq!(nvic.registers.iser[1], 1 << 0);

    assert_eq!(nvic.set_interrupt(479), Ok(()));
    assert_eq!(nvic.registers.iser[14], 1u32 << 31);
}

#[test]
fn interrupt_enable_beyond_the_lines_is_refused() {
    let mut nvic = Nvic::init(board::NVIC_BASE);
    assert_eq!(nvic.set_interrupt(480), Err(BusError::OutOfRange));
    assert_eq!(nvic.set_interrupt(u32::MAX), Err(BusError::OutOfRange));
    for w in &nvic.registers.iser {
        assert_eq!(*w, 0);
    }
}

#[test]
fn priority_bytes_and_range() {
    let mut nvic = Nvic::init(board::NVIC_BASE);
    let line = board::irq_number(NvicIrq::TIM3_IRQ);
    assert_eq!(line, 46);
    assert_eq!(nvic.set_priority(line, 1, 2), Ok(()));
    assert_eq!(nvic.registers.ipr[46], (1 << 6) | (2 << 4));

    assert_eq!(nvic.set_priority(479, 3, 3), Ok(()));
    assert_eq!(nvic.registers.ipr[479], (3 << 6) | (3 << 4));

    // The sub-priority field is masked to two bits.
    assert_eq!(nvic.set_priority(0, 0, 0xFF), Ok(()));
    assert_eq!(nvic.registers.ipr[0], 3 << 4);

    assert_eq!(nvic.set_priority(480, 1, 1), Err(BusError::OutOfRange));
}

#[test]
fn vector_table_numbers() {
    assert_eq!(board::irq_number(NvicIrq::WWDG_IRQ), 0);
    assert_eq!(board::irq_number(NvicIrq::TIM2_IRQ), 45);
    assert_eq!(board::irq_number(NvicIrq::USART3_IRQ), 63);
    assert_eq!(board::irq_number(NvicIrq::SDMMC1_IRQ), 78);
    assert_eq!(board::irq_number(NvicIrq::DMA2_Channel1_IRQ), 80);
    assert_eq!(board::irq_number(NvicIrq::RNG_IRQ), 94);
    assert_eq!(board::irq_number(NvicIrq::ICACHE_IRQ), 107);
}

#[test]
fn pin_mode_and_alternate_function() {
    let mut port = Gpio::init(board::GPIOD_BASE);
    port.otype(8, Mode::Alt, OType::PushPull, AltFunc::Af7);
    assert_eq!((port.regs.moder >> 16) & 0x3, 2);
    assert_eq!(port.regs.otyper & (1 << 8), 0);
    assert_eq!(port.regs.afrh & 0xF, 7);

    port.otype(3, Mode::Out, OType::OpenDrain, AltFunc::Af0);
    assert_eq!((port.regs.moder >> 6) & 0x3, 1);
    assert_ne!(port.regs.otyper & (1 << 3), 0);
    // Not an alternate-function pin: the routing registers stay.
    assert_eq!(port.regs.afrl, 0);

    port.otype(5, Mode::Alt, OType::PushPull, AltFunc::Af5);
    assert_eq!(port.regs.afrl, 0x5 << 20);
}

#[test]
fn pin_speed_pull_and_data() {
    let mut port = Gpio::init(board::GPIOA_BASE);
    port.ospeed(2, OSpeed::VeryHigh);
    assert_eq!((port.regs.ospeedr >> 4) & 0x3, 3);
    port.pupd(2, Pupd::Pu);
    assert_eq!((port.regs.pupdr >> 4) & 0x3, 1);

    port.set_pin(board::LED_RED);
    assert_ne!(port.regs.odr & board::LED_RED, 0);
    port.clr_pin(board::LED_RED);
    assert_eq!(port.regs.odr & board::LED_RED, 0);

    assert!(!port.get_pin(board::LED_RED));
    port.regs.idr |= board::LED_RED;
    assert!(port.get_pin(board::LED_RED));

    port.set_lock(0x30);
    assert_eq!(port.regs.lckr, 0x30);
    port.clr_lock(0x10);
    assert_eq!(port.regs.lckr, 0x20);
}

#[test]
fn clock_control() {
    let mut rcc = Rcc::init(board::RCC_BASE);
    rcc.write_msi_range(MsiRange::Clk16MHz);
    assert_eq!((rcc.regs.cr >> 4) & 0xF, 8); // range code of 16 MHz
    assert_ne!(rcc.regs.cr & 0x1, 0); // oscillator on
    assert_ne!(rcc.regs.cr & 0x8, 0); // range-select bit

    rcc.write_ahb2_enr(board::RCC_GPIOA_AHB2EN);
    rcc.write_ahb2_enr(board::RCC_GPIOB_AHB2EN);
    assert_eq!(rcc.regs.ahb2_enr, 0x3);
    rcc.write_apb1_enr1(board::TIMER2_RCC_APB1R1_ENABLE);
    assert_eq!(rcc.regs.apb1_enr1, 0x1);
    rcc.write_apb2_enr(board::SPI1_RCC_APB2R_ENABLE);
    assert_eq!(rcc.regs.apb2_enr, 1 << 12);
    rcc.write_ahb1_enr(0x5);
    assert_eq!(rcc.regs.ahb1_enr, 0x5);
    rcc.write_ahb3_enr(0x2);
    assert_eq!(rcc.regs.ahb3_enr, 0x2);
    rcc.write_apb1_enr2(0x1);
    assert_eq!(rcc.regs.apb1_enr2, 0x1);
}

#[test]
fn clock_ranges_and_waits() {
    assert_eq!(common::range(MsiRange::Clk100kHz), 100);
    assert_eq!(common::range(MsiRange::Clk16MHz), 16000);
    assert_eq!(common::range(MsiRange::Clk48MHz), 48000);
    assert_eq!(common::range_mhz(MsiRange::Clk16MHz), 16);
    assert_eq!(common::range_mhz(MsiRange::Clk100kHz), 0);
    // Fifty microseconds at sixteen cycles each.
    assert_eq!(common::wait_in_us(50, MsiRange::Clk16MHz), 800);
    assert_eq!(common::wait_in_us(50, MsiRange::Clk100kHz), 0);
}
