use apa_spi::config::{
    BusConfig, DeviceConfig, DmaChannel, SpiHost, DEFAULT_CLOCK_PIN, DEFAULT_DATA_PIN, SPI_MODE,
    UNUSED_PIN,
};
use apa_spi::driver::{Action, Event, Transfer, WAIT_FOREVER};
use apa_spi::{Apa, Config, Pixel, DEFAULT_SPI_HOST};

fn small(length: usize) -> Config {
    let mut config = Config::default();
    config.length = length;
    config
}

#[test]
fn config_defaults() {
    let config = Config::default();
    assert_eq!(config.length, 512);
    assert_eq!(config.data_pin, 7);
    assert_eq!(config.clock_pin, 6);
    assert_eq!(config.clock_speed, 10_000_000);
    assert_eq!(config.transfer_size, 0);
    assert_eq!(config.spi_host, DEFAULT_SPI_HOST);
    assert_eq!(config.spi_host, SpiHost::Spi2);
    assert_eq!(config.queue_size, 1);
    assert_eq!(config.dma_channel, DmaChannel::Auto);
    assert_eq!(config, Config::new(DEFAULT_DATA_PIN, DEFAULT_CLOCK_PIN));
}

#[test]
fn config_on_other_pins() {
    let config = Config::new(23, 18);
    assert_eq!(config.data_pin, 23);
    assert_eq!(config.clock_pin, 18);
    assert_eq!(config.length, 512);
    assert_eq!(config.clock_speed, 10_000_000);
    assert_eq!(config.queue_size, 1);
}

#[test]
fn bus_config_wires_data_and_clock_only() {
    let bus = Config::new(23, 18).bus_config();
    assert_eq!(
        bus,
        BusConfig {
            spi_host: SpiHost::Spi2,
            mosi_io_num: 23,
            miso_io_num: UNUSED_PIN,
            sclk_io_num: 18,
            quadwp_io_num: UNUSED_PIN,
            quadhd_io_num: UNUSED_PIN,
            data4_io_num: UNUSED_PIN,
            data5_io_num: UNUSED_PIN,
            data6_io_num: UNUSED_PIN,
            data7_io_num: UNUSED_PIN,
            max_transfer_sz: 0,
            master: true,
            intr_flags: 0,
            dma_channel: DmaChannel::Auto,
        }
    );
    assert_eq!(UNUSED_PIN, -1);
}

#[test]
fn device_config_is_mode_three_without_chip_select() {
    let mut config = Config::new(7, 6);
    config.clock_speed = 4_000_000;
    config.queue_size = 2;
    config.spi_host = SpiHost::Spi3;
    assert_eq!(
        config.device_config(),
        DeviceConfig {
            spi_host: SpiHost::Spi3,
            mode: 3,
            clock_speed_hz: 4_000_000,
            spics_io_num: -1,
            queue_size: 2,
        }
    );
    assert_eq!(SPI_MODE, 3);
}

#[test]
fn new_driver_holds_a_fresh_frame() {
    let apa = Apa::new(Config::default());
    assert_eq!(apa.length(), 512);
    assert_eq!(apa.data().len(), 4 + 4 * 512 + 4 + 33);
    assert!(apa.is_ready());
    assert_eq!(&apa.data()[..8], &[0, 0, 0, 0, 0xE1, 0, 0, 0]);
}

#[test]
fn driver_set_pixel_touches_the_frame_only() {
    let mut apa = Apa::new(small(3));
    apa.set_pixel(1, Pixel::new(255, 0, 0, 50));
    assert!(apa.is_ready());
    assert_eq!(
        apa.data(),
        &[
            0, 0, 0, 0, 0xE1, 0, 0, 0, 0xEE, 0, 0, 0xFF, 0xE1, 0, 0, 0, 0, 0, 0, 0, 0, 0
        ]
    );
}

#[test]
fn flush_is_over_only_after_completion() {
    let mut apa = Apa::new(small(3));
    apa.set_pixel(0, Pixel::new(1, 2, 3, 100));
    let frame = apa.data().to_vec();

    let first = apa.flush();
    assert_eq!(
        first,
        Action::Submit(Transfer {
            length_bits: 8 * 22,
            ticks_to_wait: WAIT_FOREVER
        })
    );
    assert!(!apa.is_ready());

    let second = apa.advance(Event::Submitted);
    assert_eq!(
        second,
        Action::Await {
            ticks_to_wait: 0xffff_ffff
        }
    );
    assert!(!apa.is_ready());

    let third = apa.advance(Event::Completed);
    assert_eq!(third, Action::Done);
    assert!(apa.is_ready());
    assert_eq!(apa.data(), &frame[..]);
}

#[test]
fn flush_does_not_end_before_the_bus_is_done() {
    let mut apa = Apa::new(small(1));
    assert_eq!(apa.advance(Event::Completed), Action::Refused);
    assert!(apa.is_ready());
    assert!(matches!(apa.flush(), Action::Submit(_)));
    assert_eq!(apa.advance(Event::Completed), Action::Refused);
    assert!(!apa.is_ready());
    assert!(matches!(apa.advance(Event::Submitted), Action::Await { .. }));
    for _ in 0..5 {
        assert_eq!(apa.advance(Event::Submitted), Action::Refused);
        assert!(!apa.is_ready());
    }
    assert_eq!(apa.advance(Event::Completed), Action::Done);
    assert!(apa.is_ready());
}

#[test]
fn second_flush_waits_for_the_first() {
    let mut apa = Apa::new(small(2));
    assert!(matches!(apa.flush(), Action::Submit(_)));
    assert_eq!(apa.flush(), Action::Refused);
    assert_eq!(apa.advance(Event::FlushRequested), Action::Refused);
    assert!(matches!(apa.advance(Event::Submitted), Action::Await { .. }));
    assert_eq!(apa.flush(), Action::Refused);
    assert_eq!(apa.advance(Event::Completed), Action::Done);
    assert!(matches!(apa.flush(), Action::Submit(_)));
}

#[test]
fn transfer_counts_the_whole_frame_in_bits() {
    let mut apa = Apa::new(Config::default());
    match apa.flush() {
        Action::Submit(transfer) => {
            assert_eq!(transfer.length_bits, 8 * 2089);
            assert_eq!(transfer.length_bits, 8 * apa.data().len());
            assert_eq!(transfer.ticks_to_wait, u32::MAX);
        }
        other => panic!("{:?}", other),
    }
}
