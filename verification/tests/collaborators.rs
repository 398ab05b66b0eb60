use kernel_bringup::addresses::{bus_to_phys, checked_bus_to_phys, phys_to_bus};
use kernel_bringup::exceptions::{DataAbortCause, ExceptionCause, ExceptionReport};
use kernel_bringup::interrupts::{InterruptIndex, PIC_1_OFFSET, PIC_2_OFFSET};
use kernel_bringup::mailbox::{
    check_batch_reply, check_reply, read_is_empty, send_is_full, BufferReqResCode, Channel,
    Exchange, ExchangeAction, ExchangeEvent, ExchangeStep, MessagePtr, PropertyBuffer, Status,
};
use kernel_bringup::tags::{
    BoardModelRequest, BoardModelResponse, BoardModelTag, FBAllocateBufferRequest,
    FBAllocateBufferResponse, FBAllocateBufferTag, FBSetPhysicalSizeRequest,
    FBSetPhysicalSizeResponse, FBSetVirtualSizeRequest, FBSetVirtualSizeResponse,
    FirmwareRevisionTag, Tag, TagBatch, TagData, TagInterface, TagInterfaceRequest,
    TagReqResCode, TagValue,
};
use kernel_bringup::time::{deadline, elapsed, ticks_for};
use kernel_bringup::uart::{
    baud_register, byte_for, chars_until_enter, default_baud_register, is_enter,
};
use kernel_bringup::vga_text::{code_of, CharData, CharEntry, Color, Cursor, Writer, HEIGHT, WIDTH};

#[test]
fn bus_and_physical_addresses_lie_a_fixed_distance_apart() {
    assert_eq!(bus_to_phys(0x7e00_beef), 0x3f00_beef);
    assert_eq!(bus_to_phys(0x7E21_5040), 0x3F21_5040);
    assert_eq!(phys_to_bus(0xB880), 0x3F00_B880);
    assert_eq!(bus_to_phys(phys_to_bus(0x1234)), 0x1234);
    assert_eq!(checked_bus_to_phys(0x3f00_0000), Some(0));
    assert_eq!(checked_bus_to_phys(0x3eff_ffff), None);
}

#[test]
fn ticks_follow_the_counter_frequency() {
    assert_eq!(ticks_for(62_500_000, 1_000_000), Some(62_500_000));
    assert_eq!(ticks_for(19_200_000, 1_500), Some(28_800));
    assert_eq!(ticks_for(999, 1_000_000), Some(0));
    assert_eq!(ticks_for(1_000_000, 0), Some(0));
    assert_eq!(ticks_for(u64::MAX, 1_000), Some(18_446_744_073_709_551));
    assert_eq!(ticks_for(u64::MAX, 1_001), None);
}

#[test]
fn deadline_saturates() {
    assert_eq!(deadline(100, 28_800), 28_900);
    assert_eq!(deadline(u64::MAX - 5, 5), u64::MAX);
    assert_eq!(deadline(u64::MAX - 5, 6), u64::MAX);
    assert!(!elapsed(28_899, 28_900));
    assert!(elapsed(28_900, 28_900));
}

#[test]
fn baud_register_for_the_console() {
    assert_eq!(default_baud_register(), 270);
    assert_eq!(baud_register(250_000_000, 115_200), 270);
    assert_eq!(baud_register(8, 1), 0);
}

#[test]
fn console_bytes_for_characters() {
    assert_eq!(byte_for('A'), 0x41);
    assert_eq!(byte_for('\u{ff}'), 0xFF);
    assert_eq!(byte_for('\u{100}'), b'~');
    assert_eq!(byte_for('€'), b'~');
    assert!(is_enter('\r'));
    assert!(!is_enter('\n'));
}

#[test]
fn reading_stops_at_the_first_enter() {
    assert_eq!(chars_until_enter(&vec!['a', 'b', '\r', 'c', '\r']), Some(3));
    assert_eq!(chars_until_enter(&vec!['\r']), Some(1));
    assert_eq!(chars_until_enter(&vec!['a', '\n']), None);
    assert_eq!(chars_until_enter(&vec![]), None);
}

#[test]
fn data_abort_cause_is_read_from_the_upper_syndrome_bits() {
    let current = 0x25u64 << 26;
    let lower = 0x24u64 << 26;
    assert_eq!(ExceptionCause::new(current | (0x400 << 32)).get_cause(), 0x25);
    assert_eq!(
        ExceptionCause::new(current | (0x400 << 32)).get_data_abort_cause(),
        Some(DataAbortCause::AllocTagWrite)
    );
    assert_eq!(
        ExceptionCause::new(lower | (0x100 << 32) | 0x1FF_FFFF).get_data_abort_cause(),
        Some(DataAbortCause::GaurdedStackAccess)
    );
    assert_eq!(
        ExceptionCause::new(current | (0x40 << 32)).get_data_abort_cause(),
        Some(DataAbortCause::OverlayPermissions)
    );
    assert_eq!(
        ExceptionCause::new(current | (0x20 << 32) | (0xAB << 56)).get_data_abort_cause(),
        Some(DataAbortCause::DirtyBit)
    );
    assert_eq!(ExceptionCause::new(current | (0x60 << 32)).get_data_abort_cause(), None);
    assert_eq!(ExceptionCause::new(current).get_data_abort_cause(), None);
    assert_eq!(ExceptionCause::new((0x15 << 26) | (0x400 << 32)).get_data_abort_cause(), None);
    for cause in [
        DataAbortCause::AllocTagWrite,
        DataAbortCause::GaurdedStackAccess,
        DataAbortCause::OverlayPermissions,
        DataAbortCause::DirtyBit,
    ] {
        assert_eq!(DataAbortCause::from_code(cause.code()), Some(cause));
    }
    assert_eq!(DataAbortCause::AllocTagWrite.code(), 1 << 10);
    assert_eq!(DataAbortCause::DirtyBit.code(), 1 << 5);
}

#[test]
fn exception_report_tells_page_faults_from_the_rest() {
    let current = 0x25u64 << 26;
    assert_eq!(
        ExceptionCause::new(current | (0x20 << 32)).report(),
        ExceptionReport::PageFault(Some(DataAbortCause::DirtyBit))
    );
    assert_eq!(ExceptionCause::new(current).report(), ExceptionReport::PageFault(None));
    assert_eq!(ExceptionCause::new(0x24 << 26).report(), ExceptionReport::Unhandled(0x24));
    assert_eq!(ExceptionCause::new(u64::MAX).report(), ExceptionReport::Unhandled(0x3F));
}

#[test]
fn interrupt_index_is_the_vector_number() {
    assert_eq!(PIC_1_OFFSET, 32);
    assert_eq!(PIC_2_OFFSET, PIC_1_OFFSET + 8);
    assert_eq!(InterruptIndex::Timer.as_u8(), 32);
    assert_eq!(InterruptIndex::Timer.as_usize(), 32);
}

#[test]
fn tag_code_word_keeps_the_response_bit_in_bit_31() {
    let code = TagReqResCode::new();
    assert_eq!(code.into_bits(), 0);
    assert!(!code.is_response());
    assert_eq!(code.with_is_response(true).into_bits(), 0x8000_0000);
    assert!(TagReqResCode::from_bits(0x8000_0004).is_response());
    assert!(!TagReqResCode::from_bits(0x7FFF_FFFF).is_response());
    assert_eq!(TagReqResCode::from_bits(0x8000_0004).with_is_response(false).into_bits(), 4);
}

#[test]
fn tag_values_are_the_firmware_identifiers() {
    let all = [
        (TagValue::FirmwareRevision, 0x0_0001),
        (TagValue::BoardModel, 0x1_0001),
        (TagValue::FBAllocateBuffer, 0x4_0001),
        (TagValue::FBReleaseBuffer, 0x4_8001),
        (TagValue::FBGetPhysicalSize, 0x4_0003),
        (TagValue::FBSetPhysicalSize, 0x4_8003),
        (TagValue::FBSetVirtualSize, 0x4_8004),
        (TagValue::FBSetBitsPerPixel, 0x4_8005),
    ];
    for (tag, value) in all {
        assert_eq!(tag.value(), value);
        assert_eq!(TagValue::from_value(value), Some(tag));
    }
    assert_eq!(TagValue::from_value(0), None);
    assert_eq!(FirmwareRevisionTag::ID, TagValue::FirmwareRevision);
    assert_eq!(FBAllocateBufferTag::ID, TagValue::FBAllocateBuffer);
}

#[test]
fn a_tag_is_a_request_until_it_is_answered() {
    let tag = FBAllocateBufferRequest { alignment: 16 }.into_tag();
    assert_eq!(tag.id, TagValue::FBAllocateBuffer);
    assert_eq!(tag.size, 4);
    assert!(tag.is_request());
    assert!(!tag.is_response());
    assert_eq!(tag.request(), Some(FBAllocateBufferRequest { alignment: 16 }));
    assert_eq!(tag.response(), None);
    let answer = FBAllocateBufferResponse { base_address: 0x3C10_0000, size: 921_600 };
    let tag = tag.answered(answer);
    assert!(tag.is_response());
    assert!(!tag.is_request());
    assert_eq!(tag.request(), None);
    assert_eq!(tag.response(), Some(answer));
    assert_eq!(tag.size, 4);
    let empty = BoardModelTag::from_request(BoardModelRequest {});
    assert_eq!(empty.size, 0);
    assert_eq!(empty.req_res_code, TagReqResCode::from_bits(0));
}

#[test]
fn a_tag_whose_payload_and_code_disagree_gives_neither() {
    let tag: BoardModelTag = Tag {
        id: TagValue::BoardModel,
        size: 0,
        req_res_code: TagReqResCode::from_bits(0x8000_0000),
        data: TagData::Request(BoardModelRequest {}),
    };
    assert_eq!(tag.request(), None);
    assert_eq!(tag.response(), None);
}

#[test]
fn a_batch_gives_the_response_of_each_tag() {
    let size = FBSetPhysicalSizeRequest { width: 640, height: 480 }.into_tag();
    let virt = FBSetVirtualSizeRequest { width: 640, height: 480 }
        .into_tag()
        .answered(FBSetVirtualSizeResponse { width: 640, height: 480 });
    let model = BoardModelRequest {}.into_tag().answered(BoardModelResponse { model: 7 });
    assert_eq!((virt,).responses(), (Some(FBSetVirtualSizeResponse { width: 640, height: 480 }),));
    assert_eq!(
        (size, virt, model).responses(),
        (
            None::<FBSetPhysicalSizeResponse>,
            Some(FBSetVirtualSizeResponse { width: 640, height: 480 }),
            Some(BoardModelResponse { model: 7 }),
        )
    );
    let five = (size, size, model, virt, size).responses();
    assert_eq!(five.0, None);
    assert_eq!(five.2, Some(BoardModelResponse { model: 7 }));
    assert_eq!(five.4, None);
}

#[test]
fn message_word_holds_channel_and_buffer_address() {
    let m = MessagePtr::new().with_channel(8).with_prop_buf(0x0012_3450);
    assert_eq!(m.into_bits(), 0x0012_3458);
    assert_eq!(m.channel(), 8);
    assert_eq!(m.ptr(), 0x0001_2345);
    assert_eq!(m.prop_buf(), 0x0012_3450);
    assert_eq!(MessagePtr::new().with_prop_buf(0xFFFF_FFFF).prop_buf(), 0xFFFF_FFF0);
    assert_eq!(m.with_channel(9).into_bits(), 0x0012_3459);
    assert_eq!(m.with_ptr(1).into_bits(), 0x18);
    assert_eq!(Channel::CpuToVc.number(), 8);
    assert_eq!(Channel::VcToCpu.number(), 9);
}

#[test]
fn status_flags() {
    assert!(send_is_full(0x8000_0000));
    assert!(send_is_full(0xC000_0001));
    assert!(!send_is_full(0x4000_0000));
    assert!(read_is_empty(0x4000_0000));
    assert!(!read_is_empty(0x8000_0000));
    assert!(Status::from_bits_retain(0xC000_0000).contains(0xC000_0000));
    assert!(!Status::from_bits_retain(0x8000_0000).contains(0xC000_0000));
    assert!(BufferReqResCode::from_bits_retain(0x8000_0001).contains(0x8000_0001));
    assert!(!BufferReqResCode::from_bits_retain(0x8000_0000).contains(0x8000_0001));
}

#[test]
fn replies_are_refused_on_error_or_without_a_response() {
    let ok = BufferReqResCode::from_bits_retain(0x8000_0000);
    let error = BufferReqResCode::from_bits_retain(0x8000_0001);
    assert_eq!(check_reply(ok, Some(7u32)), Ok(7));
    assert_eq!(check_reply(ok, None::<u32>), Err(()));
    assert_eq!(check_reply(error, Some(7u32)), Err(()));
    assert_eq!(check_batch_reply(ok, (Some(1u32), None::<u32>)), Ok((Some(1), None)));
    assert_eq!(check_batch_reply(error, (Some(1u32),)), Err(()));
    let buffer = PropertyBuffer::request(32, (1u32, 2u32));
    assert_eq!(buffer.size, 32);
    assert_eq!(buffer.req_res_code, BufferReqResCode::from_bits_retain(0));
    assert_eq!(buffer.tags, (1, 2));
    assert_eq!(buffer.end_tag, 0);
}

#[test]
fn an_exchange_waits_writes_and_reads_until_its_channel_answers() {
    let (mut exchange, first) = Exchange::start(0x0012_3450);
    assert_eq!(first, ExchangeAction::ReadWriteStatus);
    assert_eq!(exchange.request_word(), 0x0012_3458);
    let script = [
        (ExchangeEvent::WriteStatus(0x8000_0000), ExchangeAction::ReadWriteStatus),
        (ExchangeEvent::Written, ExchangeAction::Nothing),
        (ExchangeEvent::WriteStatus(0), ExchangeAction::Write(0x0012_3458)),
        (ExchangeEvent::Written, ExchangeAction::ReadReadStatus),
        (ExchangeEvent::ReadStatus(0x4000_0000), ExchangeAction::ReadReadStatus),
        (ExchangeEvent::ReadStatus(0), ExchangeAction::ReadMessage),
        (ExchangeEvent::Message(0x0055_5559), ExchangeAction::ReadMessage),
        (ExchangeEvent::Message(0x0012_3458), ExchangeAction::Deliver(0x0012_3450)),
        (ExchangeEvent::Message(0x0012_3458), ExchangeAction::Nothing),
    ];
    for (event, action) in script {
        assert_eq!(exchange.advance(event), action);
    }
    assert_eq!(exchange.step, ExchangeStep::Complete);
    assert_eq!(exchange.buf, 0x0012_3450);
}

#[test]
fn colors_are_their_four_bit_codes() {
    let all = [
        Color::Black,
        Color::Blue,
        Color::Green,
        Color::Cyan,
        Color::Red,
        Color::Magenta,
        Color::Brown,
        Color::LightGray,
        Color::DarkGray,
        Color::LightBlue,
        Color::LightGreen,
        Color::LightCyan,
        Color::LightRed,
        Color::Pink,
        Color::Yellow,
        Color::White,
    ];
    for (code, color) in all.iter().enumerate() {
        assert_eq!(color.into_bits(), code as u8);
        assert_eq!(Color::from_bits(code as u8), *color);
    }
    assert_eq!(Color::from_bits(16), Color::Black);
    assert_eq!(Color::from_bits(255), Color::Black);
}

#[test]
fn char_entry_is_u16() {
    assert_eq!(core::mem::size_of::<CharEntry>(), 2);
    assert_eq!(core::mem::size_of::<CharData>(), 1);
}

#[test]
fn char_entry_can_set_and_get() {
    let mut ce = CharData::new();
    assert_eq!(ce.fg_color(), Color::White);
    assert_eq!(ce.bg_color(), Color::Black);
    assert_eq!(ce.blink(), false);

    ce.set_fg_color(Color::Blue);
    ce.set_bg_color(Color::Magenta);
    ce.set_blink(true);

    assert_eq!(ce.fg_color(), Color::Blue);
    assert_eq!(ce.bg_color(), Color::Magenta);
    assert_eq!(ce.blink(), true);
    assert_eq!(ce.0, 0xD1);

    ce.set_fg_color(Color::LightRed);
    assert_eq!(ce.fg_color(), Color::LightRed);
    assert_eq!(ce.bg_color(), Color::Magenta);
    ce.set_blink(false);
    assert_eq!(ce.0, 0x5C);
}

#[test]
fn cursor_wraps_at_the_end_of_line_and_screen() {
    let mut writer = Writer::new();
    assert_eq!(writer.cursor_pos, Cursor { row: 0, col: 0 });
    writer.advance_cursor();
    assert_eq!(writer.cursor_pos, Cursor { row: 1, col: 0 });
    writer.new_line();
    assert_eq!(writer.cursor_pos, Cursor { row: 0, col: 1 });
    writer.cursor_pos = Cursor { row: WIDTH - 1, col: 3 };
    writer.advance_cursor();
    assert_eq!(writer.cursor_pos, Cursor { row: 0, col: 4 });
    writer.cursor_pos = Cursor { row: WIDTH - 1, col: HEIGHT - 1 };
    writer.advance_cursor();
    assert_eq!(writer.cursor_pos, Cursor { row: 0, col: 0 });
    writer.cursor_pos = Cursor { row: 17, col: HEIGHT - 1 };
    writer.new_line();
    assert_eq!(writer.cursor_pos, Cursor { row: 0, col: 0 });
}

#[test]
fn writer_puts_characters_at_the_cursor() {
    let mut writer = Writer::new();
    assert_eq!(writer.buffer.len(), WIDTH * HEIGHT);
    writer.write_str("hi\nyo€");
    let white = CharData::new();
    assert_eq!(writer.buffer[0], CharEntry { chr: b'h', data: white });
    assert_eq!(writer.buffer[1], CharEntry { chr: b'i', data: white });
    assert_eq!(writer.buffer[2], CharEntry { chr: 0, data: white });
    assert_eq!(writer.buffer[WIDTH], CharEntry { chr: b'y', data: white });
    assert_eq!(writer.buffer[WIDTH + 1], CharEntry { chr: b'o', data: white });
    assert_eq!(writer.buffer[WIDTH + 2], CharEntry { chr: b'~', data: white });
    assert_eq!(writer.cursor_pos, Cursor { row: 3, col: 1 });
    writer.write_char('\n');
    assert_eq!(writer.cursor_pos, Cursor { row: 0, col: 2 });
    assert_eq!(code_of('\u{fe}'), 0xFE);
    assert_eq!(code_of('\u{ff}'), b'~');
}
