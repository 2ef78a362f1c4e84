//! What a driver is built with, and what the bus is told.
//!
//! Everything here is plain values. Handing them to the bus is left to the
//! caller, who owns the hardware.

use vstd::prelude::*;

verus! {

/// The SPI controllers a chain can hang on.
#[derive(Clone, Copy, Debug, PartialEq, Eq, Structural)]
pub enum SpiHost {
    Spi1,
    Spi2,
    Spi3,
}

/// How the bus moves the frame out of memory.
#[derive(Clone, Copy, Debug, PartialEq, Eq, Structural)]
pub enum DmaChannel {
    Disabled,
    Channel1,
    Channel2,
    Auto,
}

/// The controller a driver uses unless told otherwise.
pub const DEFAULT_SPI_HOST: SpiHost = SpiHost::Spi2;

/// The number of LEDs in a chain unless told otherwise.
pub const DEFAULT_LENGTH: usize = 512;

/// The data pin unless told otherwise.
pub const DEFAULT_DATA_PIN: i32 = 7;

/// The clock pin unless told otherwise.
pub const DEFAULT_CLOCK_PIN: i32 = 6;

/// The clock rate in hertz unless told otherwise.
pub const DEFAULT_CLOCK_SPEED: i32 = 10_000_000;

/// The pin number that tells the bus a line is not wired.
pub const UNUSED_PIN: i32 = -1;

/// The SPI mode of the chain's shift register: the clock idles high and data
/// is taken on the trailing edge.
pub const SPI_MODE: u8 = 3;

/// The settings a driver is made with. They stay as they are once the driver
/// exists.
#[derive(Clone, Copy, Debug, PartialEq, Eq, Structural)]
pub struct Config {
    /// The number of LEDs in the chain.
    pub length: usize,
    /// The pin that carries the data.
    pub data_pin: i32,
    /// The pin that carries the clock.
    pub clock_pin: i32,
    /// The clock rate in hertz.
    pub clock_speed: i32,
    /// The most bytes the bus moves in one transfer; zero leaves it to the bus.
    pub transfer_size: i32,
    /// The controller the chain hangs on.
    pub spi_host: SpiHost,
    /// How many transfers the bus may hold at once.
    pub queue_size: i32,
    /// How the bus moves the frame out of memory.
    pub dma_channel: DmaChannel,
}

/// What the bus is set up with, once for each controller.
#[derive(Clone, Copy, Debug, PartialEq, Eq, Structural)]
pub struct BusConfig {
    pub spi_host: SpiHost,
    pub mosi_io_num: i32,
    pub miso_io_num: i32,
    pub sclk_io_num: i32,
    pub quadwp_io_num: i32,
    pub quadhd_io_num: i32,
    pub data4_io_num: i32,
    pub data5_io_num: i32,
    pub data6_io_num: i32,
    pub data7_io_num: i32,
    pub max_transfer_sz: i32,
    /// Whether the controller leads the bus.
    pub master: bool,
    pub intr_flags: i32,
    pub dma_channel: DmaChannel,
}

/// What the chain is attached to the bus with.
#[derive(Clone, Copy, Debug, PartialEq, Eq, Structural)]
pub struct DeviceConfig {
    pub spi_host: SpiHost,
    pub mode: u8,
    pub clock_speed_hz: i32,
    pub spics_io_num: i32,
    pub queue_size: i32,
}

impl Config {
    /// The settings of a chain on the given pins, all else at its default.
    pub open spec fn on_pins(data_pin: i32, clock_pin: i32) -> Config {
        Config {
            length: DEFAULT_LENGTH,
            data_pin,
            clock_pin,
            clock_speed: DEFAULT_CLOCK_SPEED,
            transfer_size: 0,
            spi_host: DEFAULT_SPI_HOST,
            queue_size: 1,
            dma_channel: DmaChannel::Auto,
        }
    }

    /// The bus settings that these settings ask for: the data pin drives the
    /// data line, the clock pin the clock, no other line is wired, and the
    /// controller leads the bus.
    pub open spec fn bus(&self) -> BusConfig {
        BusConfig {
            spi_host: self.spi_host,
            mosi_io_num: self.data_pin,
            miso_io_num: UNUSED_PIN,
            sclk_io_num: self.clock_pin,
            quadwp_io_num: UNUSED_PIN,
            quadhd_io_num: UNUSED_PIN,
            data4_io_num: UNUSED_PIN,
            data5_io_num: UNUSED_PIN,
            data6_io_num: UNUSED_PIN,
            data7_io_num: UNUSED_PIN,
            max_transfer_sz: self.transfer_size,
            master: true,
            intr_flags: 0,
            dma_channel: self.dma_channel,
        }
    }

    /// The device settings that these settings ask for: the chain's SPI mode,
    /// the clock rate, no chip select, and the queue depth.
    pub open spec fn device(&self) -> DeviceConfig {
        DeviceConfig {
            spi_host: self.spi_host,
            mode: SPI_MODE,
            clock_speed_hz: self.clock_speed,
            spics_io_num: UNUSED_PIN,
            queue_size: self.queue_size,
        }
    }

    /// The settings of a chain on the given pins, all else at its default.
    pub fn new(data_pin: i32, clock_pin: i32) -> (config: Config)
        ensures
            config == Config::on_pins(data_pin, clock_pin),
    {
        Config {
            length: DEFAULT_LENGTH,
            data_pin,
            clock_pin,
            clock_speed: DEFAULT_CLOCK_SPEED,
            transfer_size: 0,
            spi_host: DEFAULT_SPI_HOST,
            queue_size: 1,
            dma_channel: DmaChannel::Auto,
        }
    }

    /// What to set the bus up with.
    pub fn bus_config(&self) -> (bus: BusConfig)
        ensures
            bus == self.bus(),
    {
        BusConfig {
            spi_host: self.spi_host,
            mosi_io_num: self.data_pin,
            miso_io_num: UNUSED_PIN,
            sclk_io_num: self.clock_pin,
            quadwp_io_num: UNUSED_PIN,
            quadhd_io_num: UNUSED_PIN,
            data4_io_num: UNUSED_PIN,
            data5_io_num: UNUSED_PIN,
            data6_io_num: UNUSED_PIN,
            data7_io_num: UNUSED_PIN,
            max_transfer_sz: self.transfer_size,
            master: true,
            intr_flags: 0,
            dma_channel: self.dma_channel,
        }
    }

    /// What to attach the chain to the bus with.
    pub fn device_config(&self) -> (device: DeviceConfig)
        ensures
            device == self.device(),
    {
        DeviceConfig {
            spi_host: self.spi_host,
            mode: SPI_MODE,
            clock_speed_hz: self.clock_speed,
            spics_io_num: UNUSED_PIN,
            queue_size: self.queue_size,
        }
    }
}

impl Default for Config {
    /// The settings of a chain on the default pins.
    fn default() -> (config: Config)
        ensures
            config == Config::on_pins(DEFAULT_DATA_PIN, DEFAULT_CLOCK_PIN),
    {
        Config::new(DEFAULT_DATA_PIN, DEFAULT_CLOCK_PIN)
    }
}

} // verus!
