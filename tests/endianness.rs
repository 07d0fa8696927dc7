use groth16_bn254::convert_endianness;

#[test]
fn test_convert_endianness_32_64() {
    let input: [u8; 64] = [
        1, 2, 3, 4, 5, 6, 7, 8, 9, 10, 11, 12, 13, 14, 15, 16, 17, 18, 19, 20, 21, 22, 23, 24, 25,
        26, 27, 28, 29, 30, 31, 32, 33, 34, 35, 36, 37, 38, 39, 40, 41, 42, 43, 44, 45, 46, 47, 48,
        49, 50, 51, 52, 53, 54, 55, 56, 57, 58, 59, 60, 61, 62, 63, 64,
    ];

    let result = convert_endianness::<32, 64>(&input);

    // First 32 bytes should be reversed
    assert_eq!(result[0], 32);
    assert_eq!(result[31], 1);

    // Second 32 bytes should be reversed
    assert_eq!(result[32], 64);
    assert_eq!(result[63], 33);
}

#[test]
fn test_convert_endianness_64_128() {
    let mut input: [u8; 128] = [0; 128];
    for (i, b) in input.iter_mut().enumerate() {
        *b = (i + 1) as u8;
    }

    let result = convert_endianness::<64, 128>(&input);

    // First 64 bytes should be reversed
    assert_eq!(result[0], 64);
    assert_eq!(result[63], 1);

    // Second 64 bytes should be reversed
    assert_eq!(result[64], 128);
    assert_eq!(result[127], 65);
}

#[test]
fn convert_endianness_whole_64_byte_result() {
    let mut input = [0u8; 64];
    for (i, b) in input.iter_mut().enumerate() {
        *b = (i + 1) as u8;
    }
    let result = convert_endianness::<32, 64>(&input);
    let mut expected = [0u8; 64];
    for i in 0..32 {
        expected[i] = (32 - i) as u8;
        expected[32 + i] = (64 - i) as u8;
    }
    assert_eq!(result, expected);
}

#[test]
fn convert_endianness_twice_restores_input() {
    let mut input = [0u8; 96];
    for (i, b) in input.iter_mut().enumerate() {
        *b = (i * 7 + 3) as u8;
    }
    let once = convert_endianness::<32, 96>(&input);
    assert_ne!(once, input);
    assert_eq!(convert_endianness::<32, 96>(&once), input);
}

#[test]
fn convert_endianness_chunk_of_whole_buffer_reverses_it() {
    let input: [u8; 4] = [1, 2, 3, 4];
    assert_eq!(convert_endianness::<4, 4>(&input), [4, 3, 2, 1]);
    assert_eq!(convert_endianness::<1, 4>(&input), [1, 2, 3, 4]);
}
