use hello_world::error::ProgramError;
use hello_world::state::{HelloWorldAccount, Key};

fn sample() -> HelloWorldAccount {
    HelloWorldAccount {
        key: 1,
        padding: [9, 8, 7, 6, 5, 4, 3],
        a: 0x0102_0304_0506_0708,
        b: u64::MAX - 1,
    }
}

#[test]
fn base_len_is_the_size_of_the_layout() {
    assert_eq!(HelloWorldAccount::BASE_LEN, 24);
    assert_eq!(sample().bytes_of().len(), HelloWorldAccount::BASE_LEN);
}

#[test]
fn bytes_of_follows_the_layout() {
    assert_eq!(
        sample().bytes_of(),
        [
            1, 9, 8, 7, 6, 5, 4, 3, 8, 7, 6, 5, 4, 3, 2, 1, 0xfe, 0xff, 0xff, 0xff, 0xff, 0xff,
            0xff, 0xff
        ]
    );
    assert_eq!(
        HelloWorldAccount::new(1, 2).bytes_of(),
        [1, 0, 0, 0, 0, 0, 0, 0, 1, 0, 0, 0, 0, 0, 0, 0, 2, 0, 0, 0, 0, 0, 0, 0]
    );
}

#[test]
fn new_record_has_its_kind_and_zero_padding() {
    let record = HelloWorldAccount::new(10, 20);
    assert_eq!(record.key, 1);
    assert_eq!(record.padding, [0; 7]);
    assert_eq!(record.a, 10);
    assert_eq!(record.b, 20);
}

#[test]
fn view_reads_back_every_field() {
    for record in [
        sample(),
        HelloWorldAccount::new(0, 0),
        HelloWorldAccount { key: 0, padding: [0xff; 7], a: u64::MAX, b: 1 << 63 },
        HelloWorldAccount { key: 200, padding: [1, 0, 0, 0, 0, 0, 1], a: 256, b: 255 },
    ] {
        let bytes = record.bytes_of();
        let view = HelloWorldAccount::view_as(&bytes).unwrap();
        assert_eq!(view.key(), record.key);
        assert_eq!(view.padding(), record.padding);
        assert_eq!(view.a(), record.a);
        assert_eq!(view.b(), record.b);
        let back = view.get();
        assert_eq!(back.key, record.key);
        assert_eq!(back.padding, record.padding);
        assert_eq!(back.a, record.a);
        assert_eq!(back.b, record.b);
        assert_eq!(back.bytes_of(), bytes);
    }
}

#[test]
fn view_of_given_bytes() {
    let bytes: [u8; 24] = [
        1, 0, 0, 0, 0, 0, 0, 0, 1, 0, 0, 0, 0, 0, 0, 0, 2, 0, 0, 0, 0, 0, 0, 0,
    ];
    let view = HelloWorldAccount::view_as(&bytes).unwrap();
    assert_eq!(view.key(), 1);
    assert_eq!(view.a(), 1);
    assert_eq!(view.b(), 2);
}

#[test]
fn view_is_the_buffer_itself() {
    let bytes = sample().bytes_of();
    let view = HelloWorldAccount::view_as(&bytes).unwrap();
    assert!(std::ptr::eq(view.bytes.as_ptr(), bytes.as_ptr()));
    assert_eq!(view.bytes, &bytes);
}

#[test]
fn view_refuses_every_other_length() {
    let bytes = [0u8; 64];
    for len in 0..=64usize {
        let result = HelloWorldAccount::view_as(&bytes[..len]);
        if len == HelloWorldAccount::BASE_LEN {
            assert!(result.is_ok());
        } else {
            assert_eq!(result.err(), Some(ProgramError::InvalidAccountData));
        }
    }
    assert_eq!(HelloWorldAccount::view_as(&[]).err(), Some(ProgramError::InvalidAccountData));
    assert_eq!(
        HelloWorldAccount::view_as(&bytes[..HelloWorldAccount::BASE_LEN - 1]).err(),
        Some(ProgramError::InvalidAccountData)
    );
    assert_eq!(
        HelloWorldAccount::view_as(&bytes[..HelloWorldAccount::BASE_LEN + 1]).err(),
        Some(ProgramError::InvalidAccountData)
    );
}

#[test]
fn view_does_not_depend_on_the_buffer_address() {
    let mut room = [0u8; 40];
    for offset in 0..8usize {
        room[offset..offset + 24].copy_from_slice(&sample().bytes_of());
        let view = HelloWorldAccount::view_as(&room[offset..offset + 24]).unwrap();
        assert_eq!(view.a(), 0x0102_0304_0506_0708);
        assert_eq!(view.b(), u64::MAX - 1);
    }
}

#[test]
fn mutable_view_writes_through() {
    let mut buffer = HelloWorldAccount::new(1, 2).bytes_of();
    {
        let mut view = HelloWorldAccount::view_as_mut(&mut buffer).unwrap();
        assert_eq!(view.a(), 1);
        assert_eq!(view.b(), 2);
        view.set_a(0x1122_3344_5566_7788);
        assert_eq!(view.a(), 0x1122_3344_5566_7788);
        assert_eq!(view.b(), 2);
        assert_eq!(view.key(), 1);
    }
    assert_eq!(
        buffer,
        [
            1, 0, 0, 0, 0, 0, 0, 0, 0x88, 0x77, 0x66, 0x55, 0x44, 0x33, 0x22, 0x11, 2, 0, 0, 0, 0,
            0, 0, 0
        ]
    );
    {
        let mut view = HelloWorldAccount::view_as_mut(&mut buffer).unwrap();
        view.set_b(u64::MAX);
        view.set_key(u8::from(Key::Uninitialized));
        let record = view.get();
        assert_eq!(record.key, 0);
        assert_eq!(record.padding, [0; 7]);
        assert_eq!(record.a, 0x1122_3344_5566_7788);
        assert_eq!(record.b, u64::MAX);
        assert_eq!(view.padding(), [0; 7]);
    }
    assert_eq!(
        buffer,
        [
            0, 0, 0, 0, 0, 0, 0, 0, 0x88, 0x77, 0x66, 0x55, 0x44, 0x33, 0x22, 0x11, 0xff, 0xff,
            0xff, 0xff, 0xff, 0xff, 0xff, 0xff
        ]
    );
}

#[test]
fn mutable_view_keeps_the_padding() {
    let mut buffer = sample().bytes_of();
    {
        let mut view = HelloWorldAccount::view_as_mut(&mut buffer).unwrap();
        view.set_a(0);
        view.set_b(0);
        view.set_key(7);
        assert_eq!(view.padding(), [9, 8, 7, 6, 5, 4, 3]);
    }
    assert_eq!(buffer, [7, 9, 8, 7, 6, 5, 4, 3, 0, 0, 0, 0, 0, 0, 0, 0, 0, 0, 0, 0, 0, 0, 0, 0]);
}

#[test]
fn mutable_view_refuses_every_other_length_and_writes_nothing() {
    for len in [0usize, 10, 23, 25] {
        let mut buffer = vec![0xabu8; len];
        assert_eq!(
            HelloWorldAccount::view_as_mut(&mut buffer).err(),
            Some(ProgramError::InvalidAccountData)
        );
        assert_eq!(buffer, vec![0xabu8; len]);
    }
}

#[test]
fn numbers_are_little_endian() {
    for x in [0u64, 1, 255, 256, 0xdead_beef, 0x0102_0304_0506_0708, u64::MAX, 1 << 63] {
        let bytes = HelloWorldAccount::new(x, !x).bytes_of();
        assert_eq!(bytes[8..16], x.to_le_bytes());
        assert_eq!(bytes[16..24], (!x).to_le_bytes());
        let view = HelloWorldAccount::view_as(&bytes).unwrap();
        assert_eq!(view.a(), x);
        assert_eq!(view.b(), !x);
    }
    let mut bytes = [0u8; 24];
    bytes[9] = 1;
    bytes[23] = 0x80;
    let view = HelloWorldAccount::view_as(&bytes).unwrap();
    assert_eq!(view.a(), 256);
    assert_eq!(view.b(), 1 << 63);
}

#[test]
fn layout_is_what_a_cast_of_the_numbers_gives() {
    let record = sample();
    let bytes = record.bytes_of();
    let a: u64 = bytemuck::pod_read_unaligned(&bytes[8..16]);
    let b: u64 = bytemuck::pod_read_unaligned(&bytes[16..24]);
    assert_eq!(u64::from_le(a), record.a);
    assert_eq!(u64::from_le(b), record.b);
    assert_eq!(bytemuck::bytes_of(&record.a.to_le()), &bytes[8..16]);
}

#[test]
fn key_and_tag_determine_each_other() {
    assert_eq!(u8::from(Key::Uninitialized), 0);
    assert_eq!(u8::from(Key::HelloWorldAccount), 1);
    assert_eq!(Key::try_from(0), Ok(Key::Uninitialized));
    assert_eq!(Key::try_from(1), Ok(Key::HelloWorldAccount));
    for tag in 2..=255u8 {
        assert_eq!(Key::try_from(tag), Err(ProgramError::InvalidAccountData));
    }
}
