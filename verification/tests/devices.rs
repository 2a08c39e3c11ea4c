use marty_core::devices::ega::graphics_controller::{
    GDataRotateRegister, GMiscellaneousRegister, GModeRegister, GraphicsController,
    GraphicsRegister, MemoryMap, ReadMode, RotateFunction, ShiftMode, WriteMode,
};
use marty_core::devices::ega::sequencer::Sequencer;
use marty_core::devices::ega::{power_of_two, rotate_right_u8, test_bit};
use marty_core::devices::pc98_graphics::gdc::{GDCState, GDC};
use marty_core::devices::pc98_graphics::PC98Graphics;
use marty_core::devices::pc98_keyboard::{PC98Keyboard, UPD8251};
use marty_core::devices::pc98_system_port::{
    IoMode, PC98SystemPort, PpiControlWord, PpiModeA, PpiModeB, NO_IO_BYTE,
};
use marty_core::devices::videocard::{
    BufferSelect, ClockingMode, DisplayApertureType, DisplayMode, MemRangeDescriptor, RenderBpp,
    RenderMode, VideoCardStateEntry, VideoType,
};
use marty_core::io::IoBusInterface;
use marty_core::text::{binary_string, decimal_string};

fn graphics() -> PC98Graphics {
    let mut font = vec![0u8; 0x2000];
    // the glyph of character 0x41, line 0: dots in the two outer pixels
    font[0x800 + 0x41 * 16] = 0b1000_0001;
    PC98Graphics::new(font, ClockingMode::Default, false)
}

#[test]
fn system_port_after_power_on() {
    let mut port = PC98SystemPort::new();
    assert_eq!(port.dip_sw2, 0b0000_1100);
    assert_eq!(port.handle_porta_read(), 0b1111_0011);
    assert_eq!(port.handle_portb_read(), 0);
    assert_eq!(port.handle_portc_read(), 0);
    assert_eq!(port.read_u8(0x31), 0xF3);
    assert_eq!(port.read_u8(0x33), 0);
    assert_eq!(port.read_u8(0x35), 0);
    assert_eq!(port.read_u8(0x37), NO_IO_BYTE);
    let zeroed = PC98SystemPort::default();
    assert_eq!(zeroed.dip_sw2, 0);
}

#[test]
fn system_port_writes() {
    let mut port = PC98SystemPort::new();
    port.handle_portb_write(0x5A);
    port.handle_portc_write(0xA5);
    assert_eq!(port.port_b_byte, 0x5A);
    assert_eq!(port.port_c_byte, 0xA5);
    port.write_u8(0x31, 0xFF);
    assert_eq!(port.read_u8(0x31), 0xF3);
    port.write_u8(0x33, 0x11);
    port.write_u8(0x35, 0x22);
    assert_eq!((port.port_b_byte, port.port_c_byte), (0x11, 0x22));
}

#[test]
fn system_port_command_sets_modes_only_with_mode_set() {
    let mut port = PC98SystemPort::new();
    // mode set, group A mode 2, group B mode 1
    port.handle_command_port_write(0b1100_0100);
    assert_eq!(port.control_word.byte, 0b1100_0100);
    assert_eq!(port.group_a_mode, PpiModeA::Mode2BiDirectional);
    assert_eq!(port.group_b_mode, PpiModeB::Mode1StrobedIo);
    // without mode set the modes stay
    port.write_u8(0x37, 0b0010_0000);
    assert_eq!(port.control_word.byte, 0b0010_0000);
    assert_eq!(port.group_a_mode, PpiModeA::Mode2BiDirectional);
    assert_eq!(port.group_b_mode, PpiModeB::Mode1StrobedIo);
    port.write_u8(0x37, 0b1010_0000);
    assert_eq!(port.group_a_mode, PpiModeA::Mode1StrobedIo);
    assert_eq!(port.group_b_mode, PpiModeB::Mode0Io);
}

#[test]
fn control_word_fields() {
    let word = PpiControlWord::from_bytes([0b1111_0101]);
    assert_eq!(word.group_b_c(), IoMode::Input);
    assert_eq!(word.group_b_b(), IoMode::Output);
    assert_eq!(word.group_b_mode(), PpiModeB::Mode1StrobedIo);
    assert_eq!(word.group_a_c(), IoMode::Output);
    assert_eq!(word.group_a_a(), IoMode::Input);
    assert_eq!(word.group_a_mode(), PpiModeA::Mode2BiDirectional2);
    assert!(word.mode_set());
    assert_eq!(word.into_bytes(), [0b1111_0101]);
    let zero = PpiControlWord::new();
    assert_eq!(zero.group_a_mode(), PpiModeA::Mode0Io);
    assert!(!zero.mode_set());
}

#[test]
fn system_port_list() {
    let port = PC98SystemPort::new();
    let list = port.port_list();
    assert_eq!(
        list,
        vec![
            ("SYSTEM Port A".to_string(), 0x31),
            ("SYSTEM Port B".to_string(), 0x33),
            ("SYSTEM Port C".to_string(), 0x35),
            ("SYSTEM Command".to_string(), 0x37),
        ]
    );
}

#[test]
fn usart_receives_and_overruns() {
    let mut u = UPD8251::default();
    assert_eq!(u.status_read(), 0b101);
    u.push_byte(0x1C);
    assert_eq!(u.status_read(), 0b111);
    assert!(!u.oe);
    u.push_byte(0x2D);
    assert!(u.oe);
    assert_eq!(u.data_read(), 0x2D);
    assert_eq!(u.status_read(), 0b101);
    assert_eq!(u.rxbuf, 0x2D);
    u.data_write(0xFF);
    u.control_write(0xFF);
    assert_eq!(u.rxbuf, 0x2D);
    u.reset();
    assert_eq!((u.rxbuf, u.rxrdy, u.oe), (0, false, false));
}

#[test]
fn keyboard_hands_bytes_over_one_at_a_time() {
    let mut k = PC98Keyboard::new();
    assert!(!k.run());
    k.send_keyboard(0x10);
    k.send_keyboard(0x20);
    assert_eq!(k.rx_queue.len(), 2);
    assert!(k.run());
    assert_eq!(k.rx_queue.len(), 1);
    // the first byte has not been read: the second stays in the queue
    assert!(k.run());
    assert_eq!(k.rx_queue.len(), 1);
    assert_eq!(k.read_u8(0x43), 0b111);
    assert_eq!(k.read_u8(0x41), 0x10);
    assert_eq!(k.read_u8(0x43), 0b101);
    assert!(k.run());
    assert_eq!(k.read_u8(0x41), 0x20);
    assert!(!k.run());
    assert!(!k.upd8251.oe);
    k.write_u8(0x41, 0x99);
    k.write_u8(0x43, 0x99);
    k.send_keyboard(0x30);
    k.reset();
    assert_eq!(k.rx_queue.len(), 0);
    assert!(!k.run());
    assert_eq!(
        k.port_list(),
        vec![
            ("Keyboard Data".to_string(), 0x41),
            ("Keyboard Status/Control".to_string(), 0x43)
        ]
    );
}

#[test]
fn gdc_status_and_fifo() {
    let mut gdc = GDC::new();
    assert_eq!(gdc.read_status(), 0x04);
    assert!(gdc.fifo_empty_flag());
    assert!(!gdc.vsync_flag());
    gdc.write_parameter(0x12);
    assert_eq!(gdc.read_status(), 0x00);
    assert_eq!(gdc.fifo[0], 0x112);
    gdc.y = 400;
    assert!(gdc.vsync_flag());
    assert_eq!(gdc.read_status(), 0x20);
    gdc.y = 399;
    assert_eq!(gdc.read_status(), 0x00);
    for k in 0..20u8 {
        gdc.write_parameter(k);
    }
    assert_eq!(gdc.fifo.len(), 16);
    assert_eq!(gdc.fifo[15], 0x100 + 14);
    // a reset command empties the FIFO and is queued itself
    gdc.write_command(0x00);
    assert_eq!(gdc.fifo.len(), 1);
    assert_eq!(gdc.fifo[0], 0x00);
    gdc.write_command(0x47);
    assert_eq!(gdc.fifo.len(), 2);
    gdc.write_command(0x09);
    assert_eq!(gdc.fifo.len(), 1);
    assert_eq!(gdc.fifo[0], 0x09);
    // 0x11 is a reset command to the decoder but does not empty the FIFO
    gdc.write_command(0x11);
    assert_eq!(gdc.fifo.len(), 2);
    gdc.reset();
    assert!(gdc.fifo_empty_flag());
}

fn tick_until_idle(gdc: &mut GDC) {
    for _ in 0..200 {
        gdc.tick_wclk();
        if gdc.fifo.len() == 0 && gdc.regs.wait == 0 {
            break;
        }
    }
}

#[test]
fn gdc_sync_parameters() {
    let mut gdc = GDC::new();
    gdc.write_command(0x0E);
    gdc.tick_wclk();
    assert_eq!(gdc.regs.s, GDCState::SyncP1);
    assert_eq!(gdc.regs.wait, 2);
    assert_eq!((gdc.x, gdc.y), (1, 0));
    for p in [0x10u8, 0x4E, 0xE7, 0x25, 0xC7, 0x87, 0x90, 0x65] {
        gdc.write_parameter(p);
    }
    // two ticks of waiting, then one parameter per tick
    gdc.tick_wclk();
    gdc.tick_wclk();
    assert_eq!(gdc.regs.wait, 0);
    assert_eq!(gdc.fifo.len(), 8);
    gdc.tick_wclk();
    assert_eq!(gdc.regs.mode, 0x10);
    assert_eq!(gdc.regs.s, GDCState::SyncP2);
    tick_until_idle(&mut gdc);
    assert_eq!(gdc.regs.s, GDCState::Idle);
    assert_eq!(gdc.regs.aw_minus2, 0x4E);
    // 0xE7 = 111_00111
    assert_eq!(gdc.regs.hs_minus1, 0x07);
    // 0x25 = 001001_01: the low two bits go above the three of the last byte
    assert_eq!(gdc.regs.hfp_minus1, 0x09);
    assert_eq!(gdc.regs.vs, 0x07 | (0x01 << 3));
    // 0xC7 = 1_1_000111
    assert!(gdc.regs.dh);
    assert_eq!(gdc.regs.pitch, 0x100);
    assert_eq!(gdc.regs.hbp_minus1, 0x07);
    // 0x87 = 1_0_000111
    assert!(gdc.regs.vh);
    assert!(!gdc.regs.vl);
    assert_eq!(gdc.regs.vfp, 0x07);
    // 0x90 and 0x65 = 011001_01
    assert_eq!(gdc.regs.al, 0x190);
    assert_eq!(gdc.regs.vbp, 0x19);
}

#[test]
fn gdc_pitch_zoom_cursor_and_start() {
    let mut gdc = GDC::new();
    gdc.regs.pitch = 0x100;
    gdc.write_command(0x47);
    gdc.write_parameter(0x50);
    tick_until_idle(&mut gdc);
    assert_eq!(gdc.regs.pitch, 0x150);
    gdc.write_command(0x46);
    gdc.write_parameter(0x00);
    tick_until_idle(&mut gdc);
    assert_eq!(gdc.regs.zoom, 0);
    assert_eq!(gdc.regs.s, GDCState::Idle);
    gdc.write_command(0x49);
    gdc.write_parameter(0x34);
    gdc.write_parameter(0x12);
    gdc.write_parameter(0xA3);
    tick_until_idle(&mut gdc);
    assert_eq!(gdc.regs.ead, 0x31234);
    assert_eq!(gdc.regs.dad, 0x0A);
    gdc.write_command(0x4B);
    gdc.write_parameter(0x8F);
    gdc.write_parameter(0xE3);
    gdc.write_parameter(0x7D);
    tick_until_idle(&mut gdc);
    assert_eq!(gdc.regs.lr, 0x0F);
    assert!(gdc.regs.dc);
    assert_eq!(gdc.regs.ctop, 0x03);
    assert!(gdc.regs.sc);
    // 0xE3 >> 6 = 3, then the low three bits of 0x7D
    assert_eq!(gdc.regs.br, 0x05 | 0x03 & 0x07);
    assert_eq!(gdc.regs.cbot, 0x0F);
    assert!(!gdc.regs.started);
    gdc.write_command(0x6B);
    gdc.tick_wclk();
    assert!(gdc.regs.started);
    assert_eq!(gdc.regs.wait, 5);
    // a parameter that nothing asked for is dropped
    gdc.write_parameter(0x77);
    let before = gdc.regs;
    tick_until_idle(&mut gdc);
    assert_eq!(gdc.regs.mode, before.mode);
    assert_eq!(gdc.regs.s, GDCState::Idle);
    // an unknown command is dropped too
    gdc.write_command(0xFF);
    gdc.tick_wclk();
    assert_eq!(gdc.regs.wait, 0);
    assert_eq!(gdc.fifo.len(), 0);
}

#[test]
fn gdc_scan_address_blank_and_beam() {
    let mut gdc = GDC::new();
    gdc.regs.aw_minus2 = 78;
    gdc.regs.hbp_minus1 = 7;
    gdc.regs.vbp = 25;
    gdc.regs.al = 400;
    gdc.x = 10;
    gdc.y = 25 + 35;
    gdc.tick_wclk();
    // row 2, line 3 of the row, column 2
    assert_eq!(gdc.address, 2 * 80 + 2 + (3 << 13));
    assert!(!gdc.blank);
    assert_eq!((gdc.x, gdc.y), (11, 60));
    gdc.x = 7;
    gdc.tick_wclk();
    assert!(gdc.blank);
    gdc.x = 88;
    gdc.tick_wclk();
    assert!(gdc.blank);
    gdc.x = 87;
    gdc.tick_wclk();
    assert!(!gdc.blank);
    gdc.y = 24;
    gdc.tick_wclk();
    assert!(gdc.blank);
    assert_eq!(gdc.address, 80);
    gdc.y = 425;
    gdc.tick_wclk();
    assert!(gdc.blank);
    // the end of a line and of a frame
    gdc.x = 105;
    gdc.y = 524;
    gdc.regs.blink_counter = 255;
    gdc.tick_wclk();
    assert_eq!((gdc.x, gdc.y), (0, 0));
    assert_eq!(gdc.regs.blink_counter, 0);
}

#[test]
fn gdc_cursor_output() {
    let mut gdc = GDC::new();
    gdc.regs.aw_minus2 = 78;
    gdc.regs.al = 400;
    gdc.regs.hbp_minus1 = 0;
    gdc.regs.ead = 5;
    gdc.regs.dc = true;
    gdc.regs.ctop = 0;
    gdc.regs.cbot = 15;
    gdc.regs.br = 0;
    gdc.regs.blink_counter = 0;
    gdc.x = 6;
    gdc.y = 0;
    gdc.tick_wclk();
    assert_eq!(gdc.address, 5);
    assert!(gdc.cursor_active);
    gdc.x = 7;
    gdc.tick_wclk();
    assert!(!gdc.cursor_active);
    // the blink bit hides the cursor unless it is steady
    gdc.regs.blink_counter = 0b10;
    gdc.x = 6;
    gdc.tick_wclk();
    assert!(!gdc.cursor_active);
    gdc.regs.sc = true;
    gdc.x = 6;
    gdc.tick_wclk();
    assert!(gdc.cursor_active);
    // outside the cursor's lines
    gdc.regs.ctop = 4;
    gdc.x = 6;
    gdc.tick_wclk();
    assert!(!gdc.cursor_active);
    gdc.x = 6;
    gdc.y = 4;
    gdc.tick_wclk();
    assert_eq!(gdc.address, 5 + (4 << 13));
    assert!(gdc.cursor_active);
    // a blink rate of seven or more has no blink bit
    gdc.regs.sc = false;
    gdc.regs.br = 9;
    gdc.regs.blink_counter = 0xFF;
    gdc.x = 6;
    gdc.y = 4;
    gdc.tick_wclk();
    assert!(gdc.cursor_active);
}

#[test]
fn pc98_graphics_after_power_on() {
    let g = graphics();
    assert_eq!(g.clock_mode, ClockingMode::Dynamic);
    let h = PC98Graphics::new(vec![0u8; 0x2000], ClockingMode::Cycle, true);
    assert_eq!(h.clock_mode, ClockingMode::Cycle);
    assert_eq!(g.tvmem.len(), 0x4000);
    assert_eq!(g.gvmem.len(), 0x20000);
    assert_eq!(g.buf0.len(), 640 * 400);
    assert_eq!((g.front_buf, g.back_buf), (0, 1));
    assert_eq!(g.get_video_type(), VideoType::PC98);
    assert_eq!(g.get_render_mode(), RenderMode::Direct);
    assert_eq!(g.get_render_depth(), RenderBpp::Four);
    assert_eq!(g.get_display_mode(), DisplayMode::Mode13VGALowRes256);
    assert_eq!(g.get_display_size(), (640, 400));
    assert_eq!(g.get_sync(), (false, false, true, false));
    assert_eq!(g.get_beam_pos(), Some((0, 0)));
    assert_eq!(g.get_refresh_rate(), 56);
    assert_eq!(g.get_clock_divisor(), 1);
    assert_eq!(g.get_character_height(), 0);
    assert_eq!(g.get_overscan_color(), 0);
    assert_eq!(g.get_scanline(), 0);
    assert_eq!(g.get_frame_count(), 0);
    assert_eq!(g.get_start_address(), 0);
    assert_eq!(g.get_pixel(1, 1), [0, 0, 0, 0]);
    assert_eq!(g.get_pixel_raw(1, 1), 0);
    assert_eq!(g.get_plane_slice(2), vec![0u8]);
    assert!(g.get_current_font().is_none());
    assert!(g.get_palette().is_none());
    assert!(g.is_graphics_mode());
    assert!(!g.is_40_columns());
    assert!(!g.get_scanline_double());
    assert!(!g.get_cursor_info().visible);
    assert_eq!(g.get_videocard_string_state().len(), 0);
    let extents = g.get_display_extents();
    assert_eq!((extents.field_w, extents.field_h, extents.row_stride), (640, 400, 640));
    assert_eq!(extents.apertures.len(), 1);
    assert_eq!((extents.apertures[0].w, extents.apertures[0].h), (640, 400));
    let apertures = g.get_display_apertures();
    assert_eq!(apertures.len(), 1);
    assert_eq!((apertures[0].x, apertures[0].y, apertures[0].debug), (0, 0, false));
    let descs = g.list_display_apertures();
    assert_eq!(descs.len(), 1);
    assert_eq!(descs[0].name, "Cropped: 640x400");
    assert_eq!(descs[0].aper_enum, DisplayApertureType::Cropped);
    assert_eq!(g.get_buf(BufferSelect::Front).len(), 256000);
    assert_eq!(g.get_buf(BufferSelect::Back).len(), 256000);
    assert_eq!(g.get_display_buf().len(), 256000);
}

#[test]
fn pc98_graphics_clocking_mode_can_be_set() {
    let mut g = graphics();
    g.set_clocking_mode(ClockingMode::Character);
    assert_eq!(g.clock_mode, ClockingMode::Character);
    g.reset();
    g.debug_tick(3);
    assert_eq!(g.clock_mode, ClockingMode::Character);
}

#[test]
fn pc98_graphics_memory_windows() {
    let mut g = graphics();
    assert_eq!(g.mmio_write_u8(0xA0000, 0x11, 0), 0);
    assert_eq!(g.mmio_write_u8(0xA3FFF, 0x22, 0), 0);
    assert_eq!(g.mmio_write_u8(0xA8000, 0x33, 0), 0);
    assert_eq!(g.mmio_write_u8(0xBFFFF, 0x44, 0), 0);
    assert_eq!(g.tvmem[0], 0x11);
    assert_eq!(g.tvmem[0x3FFF], 0x22);
    assert_eq!(g.gvmem[0], 0x33);
    assert_eq!(g.gvmem[0x17FFF], 0x44);
    assert_eq!(g.mmio_read_u8(0xA0000, 0), (0x11, 0));
    assert_eq!(g.mmio_peek_u8(0xBFFFF), 0x44);
    // the high window shows the start of graphics memory
    assert_eq!(g.mmio_peek_u8(0xE0000), 0x33);
    g.mmio_write_u8(0xE7FFF, 0x55, 0);
    assert_eq!(g.gvmem[0x7FFF], 0x55);
    assert_eq!(g.mmio_peek_u8(0xAFFFF), 0x55);
    assert_eq!(g.mmio_write_u16(0xA8010, 0xBEEF, 0), 0);
    assert_eq!(g.gvmem[0x10], 0xEF);
    assert_eq!(g.gvmem[0x11], 0xBE);
    assert_eq!(g.mmio_peek_u16(0xA8010), 0xBEEF);
    assert_eq!(g.mmio_read_u16(0xA8010, 0), (0xBEEF, 0));
    assert_eq!(g.get_read_wait(0xA0000, 4), 0);
    assert_eq!(g.get_write_wait(0xA0000, 4), 0);
    assert_eq!(
        g.get_mapping(),
        vec![
            MemRangeDescriptor {
                address: 0xA0000,
                size: 0x4000,
                cycle_cost: 0,
                read_only: false,
                priority: 0
            },
            MemRangeDescriptor {
                address: 0xA8000,
                size: 0x18000,
                cycle_cost: 0,
                read_only: false,
                priority: 0
            },
            MemRangeDescriptor {
                address: 0xE0000,
                size: 0x8000,
                cycle_cost: 0,
                read_only: false,
                priority: 0
            },
        ]
    );
}

#[test]
fn pc98_graphics_ports() {
    let mut g = graphics();
    assert_eq!(g.read_u8(0x60), 0x04);
    assert_eq!(g.read_u8(0xa0), 0x04);
    assert_eq!(g.read_u8(0x62), 0);
    assert_eq!(g.read_u8(0x1234), 0);
    g.write_u8(0x60, 0x12);
    g.write_u8(0x62, 0x47);
    g.write_u8(0xa0, 0x34);
    g.write_u8(0xa2, 0x46);
    g.write_u8(0x64, 0xFF);
    assert_eq!(g.tgdc.fifo.len(), 2);
    assert_eq!((g.tgdc.fifo[0], g.tgdc.fifo[1]), (0x112, 0x47));
    assert_eq!((g.ggdc.fifo[0], g.ggdc.fifo[1]), (0x134, 0x46));
    assert_eq!(g.read_u8(0x60), 0x00);
    let list = g.port_list();
    assert_eq!(list.len(), 14);
    assert_eq!(list[0], ("Text GDC Status/Parameter Register".to_string(), 0x60));
    assert_eq!(list[7], ("Graphics GDC FIFO Register".to_string(), 0xa2));
    assert_eq!(list[13], ("Palette 4".to_string(), 0xae));
}

#[test]
fn pc98_graphics_frame_takes_53_ticks_per_line() {
    let mut g = graphics();
    for _ in 0..52 {
        assert!(!g.tick());
    }
    assert_eq!(g.beam_x, 832);
    assert_eq!(g.scanline, 0);
    assert!(!g.tick());
    assert_eq!(g.beam_x, 0);
    assert_eq!(g.scanline, 1);
    g.scanline = 524;
    g.beam_x = 832;
    assert!(g.tick());
    assert_eq!((g.beam_x, g.scanline), (0, 0));
    // each tick runs the text controller twice and the graphics controller once
    let mut h = graphics();
    h.tick();
    assert_eq!(h.tgdc.x, 2);
    assert_eq!(h.ggdc.x, 1);
}

#[test]
fn pc98_graphics_draws_glyphs_and_cursor() {
    let mut g = graphics();
    g.tvmem[2 * 5] = 0x41;
    g.tgdc.address = 5;
    g.tgdc.blank = false;
    g.tgdc.cursor_active = false;
    g.scanline = 25;
    g.draw_char(64);
    assert_eq!(&g.buf0[0..8], &[15, 0, 0, 0, 0, 0, 0, 15]);
    assert_eq!(g.buf0[8], 0);
    g.scanline = 27;
    g.draw_char(64 + 16);
    assert_eq!(&g.buf0[2 * 640 + 16..2 * 640 + 24], &[15, 0, 0, 0, 0, 0, 0, 15]);
    // line 1 of the glyph is empty
    g.tgdc.address = 5 + (1 << 13);
    g.draw_char(64 + 16);
    assert_eq!(&g.buf0[2 * 640 + 16..2 * 640 + 24], &[0, 0, 0, 0, 0, 0, 0, 0]);
    // the cursor fills the cell
    g.tgdc.cursor_active = true;
    g.draw_char(64 + 24);
    assert_eq!(&g.buf0[2 * 640 + 24..2 * 640 + 32], &[15; 8]);
    // nothing is drawn while the controller blanks, or above the picture
    g.tgdc.blank = true;
    g.draw_char(64 + 32);
    assert_eq!(&g.buf0[2 * 640 + 32..2 * 640 + 40], &[0; 8]);
    g.tgdc.blank = false;
    g.scanline = 24;
    let before = g.buf0.clone();
    g.draw_char(64);
    assert_eq!(g.buf0, before);
    // the last line of the picture: what runs over the end of the buffer is dropped
    g.scanline = 424;
    g.draw_char(64 + 636);
    assert_eq!(&g.buf0[399 * 640 + 636..], &[15; 4]);
}

#[test]
fn pc98_text_rows_are_decoded_from_iso_2022_jp() {
    let mut g = graphics();
    // row 0: "A", a line feed, then KANJI IN, one kanji, KANJI OUT
    let row0: [u8; 10] = [0x41, 0x0A, 0x1B, 0x24, 0x42, 0x30, 0x21, 0x1B, 0x28, 0x42];
    for (k, b) in row0.iter().enumerate() {
        g.tvmem[k] = *b;
    }
    g.tvmem[160] = 0x42;
    let rows = g.get_text_mode_strings();
    assert_eq!(rows.len(), 25);
    let first: Vec<char> = rows[0].chars().collect();
    assert_eq!(first[0], 'A');
    assert_eq!(first[1], '\u{240D}');
    assert_eq!(first[2], '\u{4E9C}');
    assert_eq!(first[3], '\0');
    // 160 bytes, of which eight make up one character
    assert_eq!(first.len(), 160 - 7);
    assert!(rows[1].starts_with('B'));
    assert_eq!(rows[1].chars().count(), 160);
    assert_eq!(rows[24].chars().count(), 160);
}

#[test]
fn io_bus_routes_ports_to_devices() {
    let mut io = IoBusInterface::new(PC98SystemPort::new(), PC98Keyboard::new(), graphics());
    assert_eq!(io.read_u8(0x31), 0xF3);
    assert_eq!(io.read_u8(0x37), 0xFF);
    assert_eq!(io.read_u8(0x60), 0x04);
    assert_eq!(io.read_u8(0x1234), 0xFF);
    io.keyboard.send_keyboard(0x55);
    assert!(io.keyboard.run());
    assert_eq!(io.read_u8(0x43), 0b111);
    assert_eq!(io.read_u8(0x41), 0x55);
    assert_eq!(io.read_u8(0x43), 0b101);
    io.write_u8(0x33, 0xAB);
    assert_eq!(io.system_port.port_b_byte, 0xAB);
    io.write_u8(0x62, 0x0E);
    assert_eq!(io.graphics.tgdc.fifo.len(), 1);
    io.write_u8(0x41, 0x01);
    io.write_u8(0x9999, 0x01);
    assert_eq!(io.read_u8(0x60), 0x00);
}

#[test]
fn numbers_as_text() {
    assert_eq!(binary_string(0b101, 4), "0101");
    assert_eq!(binary_string(0, 4), "0000");
    assert_eq!(binary_string(0, 0), "");
    assert_eq!(binary_string(0xFF, 4), "11111111");
    assert_eq!(binary_string(0x10, 4), "10000");
    assert_eq!(binary_string(0xA5, 8), "10100101");
    assert_eq!(binary_string(5, 3), "101");
    assert_eq!(decimal_string(0), "0");
    assert_eq!(decimal_string(7), "7");
    assert_eq!(decimal_string(42), "42");
    assert_eq!(decimal_string(255), "255");
    assert_eq!(decimal_string(100), "100");
}

#[test]
fn ega_bit_helpers() {
    assert_eq!(power_of_two(0), 1);
    assert_eq!(power_of_two(8), 256);
    assert!(test_bit(0x80, 7));
    assert!(!test_bit(0x80, 6));
    for byte in [0x00u8, 0x01, 0x81, 0xA5, 0xFF] {
        for count in 0..8u8 {
            assert_eq!(rotate_right_u8(byte, count), byte.rotate_right(count as u32));
        }
    }
}

#[test]
fn ega_register_fields() {
    let rotate = GDataRotateRegister::from_bytes([0b1111_0101]);
    assert_eq!(rotate.count(), 5);
    assert_eq!(rotate.function(), RotateFunction::Or);
    assert_eq!(GDataRotateRegister::new().function(), RotateFunction::Unmodified);
    let mode = GModeRegister::from_bytes([0b0010_1110]);
    assert_eq!(mode.write_mode(), WriteMode::Mode2);
    assert!(mode.test_condition());
    assert_eq!(mode.read_mode(), ReadMode::ReadComparedPlanes);
    assert!(!mode.odd_even());
    assert_eq!(mode.shift_mode(), ShiftMode::CGACompatible);
    assert_eq!(GModeRegister::from_bytes([0x03]).write_mode(), WriteMode::Invalid);
    let misc = GMiscellaneousRegister::from_bytes([0b0000_1110]);
    assert!(!misc.graphics_mode());
    assert!(misc.chain_odd_even());
    assert_eq!(misc.memory_map(), MemoryMap::B8000_32K);
    assert_eq!(GMiscellaneousRegister::new().memory_map(), MemoryMap::A0000_128k);
}

fn select(gc: &mut GraphicsController, reg: u8, value: u8) {
    gc.write_graphics_address(reg);
    gc.write_graphics_data(value);
}

#[test]
fn ega_register_writes_are_masked() {
    let mut gc = GraphicsController::new();
    select(&mut gc, 0, 0xFF);
    select(&mut gc, 1, 0xF5);
    select(&mut gc, 2, 0x3C);
    select(&mut gc, 3, 0xFB);
    select(&mut gc, 4, 0xFF);
    select(&mut gc, 5, 0x12);
    select(&mut gc, 6, 0x05);
    select(&mut gc, 7, 0xF7);
    select(&mut gc, 8, 0xA5);
    assert_eq!(gc.regs.graphics_set_reset, 0x0F);
    assert_eq!(gc.regs.graphics_enable_set_reset, 0x05);
    assert_eq!(gc.regs.graphics_color_compare, 0x0C);
    assert_eq!(gc.regs.graphics_data_rotate.byte, 0xFB);
    assert_eq!(gc.regs.graphics_read_map_select, 0x07);
    assert_eq!(gc.regs.graphics_mode.byte, 0x12);
    assert_eq!(gc.regs.graphics_micellaneous.byte, 0x05);
    assert_eq!(gc.regs.graphics_color_dont_care, 0x07);
    assert_eq!(gc.regs.graphics_bitmask, 0xA5);
    assert_eq!(gc.regs.graphics_register_selected, GraphicsRegister::BitMask);
    // a select byte that names no register keeps the selection
    gc.write_graphics_address(0xF9);
    assert_eq!(gc.regs.graphics_register_select_byte, 0x09);
    assert_eq!(gc.regs.graphics_register_selected, GraphicsRegister::BitMask);
    // the high nibble of the select byte is dropped
    gc.write_graphics_address(0xF2);
    assert_eq!(gc.regs.graphics_register_selected, GraphicsRegister::ColorCompare);
    assert!(gc.write_graphics_position(1, 0));
    assert!(!gc.write_graphics_position(1, 1));
    assert!(gc.write_graphics_position(2, 1));
    assert!(!gc.write_graphics_position(2, 0));
    assert!(gc.write_graphics_position(3, 9));
    assert_eq!(gc.regs.graphics_bitmask, 0xA5);
}

#[test]
fn ega_plane_bounds() {
    let mut gc = GraphicsController::new();
    // 128k map without chaining: the upper half shows the lower half
    assert_eq!(gc.plane_bounds_check(0x9FFFF), None);
    assert_eq!(gc.plane_bounds_check(0xA0000), Some(0));
    assert_eq!(gc.plane_bounds_check(0xAFFFF), Some(0xFFFF));
    assert_eq!(gc.plane_bounds_check(0xB0001), Some(0x0001));
    assert_eq!(gc.plane_bounds_check(0xBFFFF), Some(0xFFFF));
    assert_eq!(gc.plane_bounds_check(0xC0000), None);
    // with chaining: two addresses per offset
    select(&mut gc, 6, 0b0000_0010);
    assert_eq!(gc.plane_bounds_check(0xA0000), Some(0));
    assert_eq!(gc.plane_bounds_check(0xA0001), Some(0));
    assert_eq!(gc.plane_bounds_check(0xA0002), Some(1));
    assert_eq!(gc.plane_bounds_check(0xBFFFF), Some(0xFFFF));
    select(&mut gc, 6, 0b0000_0100);
    assert_eq!(gc.plane_bounds_check(0xA1234), Some(0x1234));
    assert_eq!(gc.plane_bounds_check(0xAFFFF), Some(0xFFFF));
    assert_eq!(gc.plane_bounds_check(0xB0000), None);
    select(&mut gc, 6, 0b0000_1000);
    assert_eq!(gc.plane_bounds_check(0xB0000), None);
    assert_eq!(gc.plane_bounds_check(0xB8000), None);
    select(&mut gc, 6, 0b0000_1100);
    assert_eq!(gc.plane_bounds_check(0xB7FFF), None);
    assert_eq!(gc.plane_bounds_check(0xB8000), Some(0));
    assert_eq!(gc.plane_bounds_check(0xBFFFF), Some(0x7FFF));
    assert_eq!(gc.plane_bounds_check(0xC0000), None);
}

#[test]
fn sequencer_map_mask_and_odd_even() {
    let mut seq = Sequencer::new();
    assert_eq!(seq.planes.len(), 0x40000);
    seq.plane_set(2, 0x10, 0, 0xAA);
    assert_eq!(seq.read_u8(2, 0x10, 0), 0xAA);
    assert_eq!(seq.vram_read_u8(2, 0x10), 0xAA);
    assert_eq!(seq.planes[2 * 0x10000 + 0x10], 0xAA);
    // offsets wrap within the plane
    assert_eq!(seq.read_u8(2, 0x10010, 0), 0xAA);
    seq.map_mask = 0b1011;
    seq.plane_set(2, 0x10, 0, 0x55);
    assert_eq!(seq.read_u8(2, 0x10, 0), 0xAA);
    seq.map_mask = 0x0F;
    seq.plane_and(2, 0x10, 0, 0x0F);
    assert_eq!(seq.read_u8(2, 0x10, 0), 0x0A);
    seq.plane_or(2, 0x10, 0, 0xC0);
    assert_eq!(seq.read_u8(2, 0x10, 0), 0xCA);
    // odd/even: the low address bit picks the plane of the pair
    seq.odd_even = true;
    seq.plane_set(0, 0x20, 1, 0x77);
    assert_eq!(seq.vram_read_u8(1, 0x20), 0x77);
    assert_eq!(seq.vram_read_u8(0, 0x20), 0x00);
    assert_eq!(seq.read_u8(0, 0x20, 1), 0x77);
    assert_eq!(seq.read_u8(1, 0x20, 0), 0x00);
    assert_eq!(seq.read_u8(3, 0x10, 0), 0xCA);
    seq.map_mask = 0b1101;
    seq.plane_set(0, 0x20, 1, 0x88);
    assert_eq!(seq.vram_read_u8(1, 0x20), 0x77);
}

#[test]
fn sequencer_serializes_pixels() {
    let mut seq = Sequencer::new();
    seq.plane_set(0, 5, 0, 0b1000_0001);
    seq.plane_set(1, 5, 0, 0b1100_0000);
    seq.plane_set(2, 5, 0, 0b0000_0001);
    seq.plane_set(3, 5, 0, 0b1000_0010);
    assert_eq!(seq.serialize_linear(5), [0b1011, 0b0010, 0, 0, 0, 0, 0b1000, 0b0101]);
    assert_eq!(seq.pixel(5, 0), 0b1011);
    assert_eq!(seq.pixel(5, 7), 0b0101);
}

#[test]
fn ega_write_mode_0() {
    let mut gc = GraphicsController::new();
    let mut seq = Sequencer::new();
    select(&mut gc, 8, 0xFF);
    gc.cpu_write_u8(&mut seq, 0xA0003, 0x5A);
    for p in 0..4 {
        assert_eq!(seq.vram_read_u8(p, 3), 0x5A);
    }
    assert_eq!(gc.pipeline_buf, [0x5A; 4]);
    // rotate by four
    select(&mut gc, 3, 0x04);
    gc.cpu_write_u8(&mut seq, 0xA0004, 0x1E);
    assert_eq!(seq.vram_read_u8(0, 4), 0xE1);
    // set/reset on planes 0 and 1: plane 0 set, plane 1 reset
    select(&mut gc, 3, 0x00);
    select(&mut gc, 0, 0b0001);
    select(&mut gc, 1, 0b0011);
    gc.cpu_write_u8(&mut seq, 0xA0005, 0x3C);
    assert_eq!(seq.vram_read_u8(0, 5), 0xFF);
    assert_eq!(seq.vram_read_u8(1, 5), 0x00);
    assert_eq!(seq.vram_read_u8(2, 5), 0x3C);
    assert_eq!(seq.vram_read_u8(3, 5), 0x3C);
    // the bit mask lets the latches through
    select(&mut gc, 1, 0);
    assert_eq!(gc.cpu_read_u8(&seq, 0xA0003), 0x5A);
    assert_eq!(gc.latches, [0x5A; 4]);
    select(&mut gc, 8, 0x0F);
    gc.cpu_write_u8(&mut seq, 0xA0006, 0xFF);
    assert_eq!(seq.vram_read_u8(0, 6), 0x5F);
    // the logical functions
    select(&mut gc, 8, 0xFF);
    select(&mut gc, 3, 0b0000_1000);
    gc.cpu_write_u8(&mut seq, 0xA0007, 0x0F);
    assert_eq!(seq.vram_read_u8(0, 7), 0x0A);
    select(&mut gc, 3, 0b0001_0000);
    gc.cpu_write_u8(&mut seq, 0xA0007, 0x0F);
    assert_eq!(seq.vram_read_u8(0, 7), 0x5F);
    select(&mut gc, 3, 0b0001_1000);
    gc.cpu_write_u8(&mut seq, 0xA0007, 0x0F);
    assert_eq!(seq.vram_read_u8(0, 7), 0x55);
    // outside the map nothing is written
    let before = seq.planes.clone();
    gc.cpu_write_u8(&mut seq, 0xC0000, 0xFF);
    assert_eq!(seq.planes, before);
}

#[test]
fn ega_write_modes_1_and_2() {
    let mut gc = GraphicsController::new();
    let mut seq = Sequencer::new();
    seq.plane_set(0, 1, 0, 0x11);
    seq.plane_set(1, 1, 0, 0x22);
    seq.plane_set(2, 1, 0, 0x33);
    seq.plane_set(3, 1, 0, 0x44);
    gc.cpu_read_u8(&seq, 0xA0001);
    select(&mut gc, 5, 0x01);
    gc.cpu_write_u8(&mut seq, 0xA0002, 0xFF);
    assert_eq!(
        [
            seq.vram_read_u8(0, 2),
            seq.vram_read_u8(1, 2),
            seq.vram_read_u8(2, 2),
            seq.vram_read_u8(3, 2)
        ],
        [0x11, 0x22, 0x33, 0x44]
    );
    // mode 2: the colour 0b0101 under the mask 0xF0
    select(&mut gc, 5, 0x02);
    select(&mut gc, 8, 0xF0);
    gc.cpu_write_u8(&mut seq, 0xA0002, 0b0101);
    assert_eq!(
        [
            seq.vram_read_u8(0, 2),
            seq.vram_read_u8(1, 2),
            seq.vram_read_u8(2, 2),
            seq.vram_read_u8(3, 2)
        ],
        [0xF1, 0x02, 0xF3, 0x04]
    );
    // the invalid mode writes nothing
    select(&mut gc, 5, 0x03);
    let before = seq.planes.clone();
    gc.cpu_write_u8(&mut seq, 0xA0002, 0xFF);
    assert_eq!(seq.planes, before);
}

#[test]
fn ega_reads() {
    let mut gc = GraphicsController::new();
    let mut seq = Sequencer::new();
    seq.plane_set(0, 9, 0, 0b1111_0000);
    seq.plane_set(1, 9, 0, 0b1100_1100);
    seq.plane_set(2, 9, 0, 0b1010_1010);
    seq.plane_set(3, 9, 0, 0b0000_0000);
    select(&mut gc, 4, 0x02);
    assert_eq!(gc.cpu_read_u8(&seq, 0xA0009), 0b1010_1010);
    assert_eq!(gc.latches, [0xF0, 0xCC, 0xAA, 0x00]);
    assert_eq!(gc.cpu_peek_u8(&seq, 0xA0009), 0xF0);
    assert_eq!(gc.cpu_read_u8(&seq, 0x12345), 0);
    assert_eq!(gc.cpu_peek_u8(&seq, 0x12345), 0);
    assert_eq!(gc.latches, [0xF0, 0xCC, 0xAA, 0x00]);
    // compare read: colour 0b0111 with all planes counting matches bit 7 only
    select(&mut gc, 5, 0b0000_1000);
    select(&mut gc, 2, 0b0111);
    select(&mut gc, 7, 0b1111);
    assert_eq!(gc.cpu_read_u8(&seq, 0xA0009), 0b1000_0000);
    // with plane 0 not counting, colour 0b0110 at bit 3 matches too
    select(&mut gc, 7, 0b1110);
    assert_eq!(gc.cpu_read_u8(&seq, 0xA0009), 0b1000_1000);
    assert_eq!(gc.pixel_op_compare(), 0b1000_1000);
    // if no plane counts, everything matches
    select(&mut gc, 7, 0);
    assert_eq!(gc.cpu_read_u8(&seq, 0xA0009), 0xFF);
    // the pixel buffer gathers the pixels, leftmost first
    assert_eq!(gc.pixel_buf, [0b0111, 0b0011, 0b0101, 0b0001, 0b0110, 0b0010, 0b0100, 0]);
    let mut fresh = GraphicsController::new();
    fresh.get_pixels(&seq, 9);
    assert_eq!(fresh.pixel_buf, [0b0111, 0b0011, 0b0101, 0b0001, 0b0110, 0b0010, 0b0100, 0]);
}

#[test]
fn ega_serialize() {
    let mut gc = GraphicsController::new();
    let mut seq = Sequencer::new();
    seq.plane_set(0, 4, 0, 0b1110_0100);
    seq.plane_set(1, 5, 0, 0b0001_1011);
    assert_eq!(gc.serialize(&seq, 4), [1, 1, 1, 0, 0, 1, 0, 0]);
    select(&mut gc, 5, 0b0010_0000);
    assert_eq!(gc.serialize(&seq, 4), [3, 2, 1, 0, 0, 1, 2, 3]);
    assert_eq!(gc.serialize_buf, [3, 2, 1, 0, 0, 1, 2, 3]);
}

fn text_of(entry: &VideoCardStateEntry) -> String {
    match entry {
        VideoCardStateEntry::String(s) => s.clone(),
        _ => panic!("not a string"),
    }
}

#[test]
fn ega_state_rows() {
    let mut gc = GraphicsController::new();
    select(&mut gc, 0, 0b0101);
    select(&mut gc, 1, 0b0011);
    select(&mut gc, 2, 0b1000);
    select(&mut gc, 3, 0b0001_0101);
    select(&mut gc, 4, 0b010);
    select(&mut gc, 5, 0b0011_1001);
    select(&mut gc, 6, 0b0000_0111);
    select(&mut gc, 7, 0b1111);
    select(&mut gc, 8, 0b1010_0101);
    let rows = gc.get_state();
    let shown: Vec<(String, String)> =
        rows.iter().map(|(name, entry)| (name.clone(), text_of(entry))).collect();
    let expected = vec![
        ("SetReset", "0101"),
        ("EnableSetReset", "0011"),
        ("ColorCompare", "1000"),
        ("DataRotate [fn]", "Or"),
        ("DataRotate [ct]", "5"),
        ("ReadMapSelect", "010"),
        ("Mode [sr]", "CGACompatible"),
        ("Mode [o/e]", "true"),
        ("Mode [rm]", "ReadComparedPlanes"),
        ("Mode [tc]", "false"),
        ("Mode [wm]", "Mode1"),
        ("Miscellaneous [gm]", "true"),
        ("Miscellaneous [coe]", "true"),
        ("Miscellaneous [mm]", "A0000_64K"),
        ("ColorDontCare", "1111"),
        ("BitMask", "10100101"),
    ];
    assert_eq!(shown.len(), 16);
    for (k, (name, value)) in expected.iter().enumerate() {
        assert_eq!(shown[k].0, *name);
        assert_eq!(shown[k].1, *value);
    }
}

#[test]
fn well_formedness_is_tested() {
    let mut g = graphics();
    assert!(g.is_well_formed());
    g.scanline = 525;
    assert!(!g.is_well_formed());
    g.scanline = 0;
    g.tvmem.pop();
    assert!(!g.is_well_formed());
    g.tvmem.push(0);
    g.extents.apertures[0].w = 320;
    assert!(!g.is_well_formed());
    let mut seq = Sequencer::new();
    assert!(seq.is_well_formed());
    seq.planes.push(0);
    assert!(!seq.is_well_formed());
    let io = IoBusInterface::new(PC98SystemPort::new(), PC98Keyboard::new(), graphics());
    assert!(io.is_well_formed());
}
