use async_tiff::endian::Endianness;
use async_tiff::predictor::{unpredict_float, unpredict_hdiff, PredictorInfo};
use async_tiff::tags::{PlanarConfiguration, SampleFormat};

const PRED_INFO: PredictorInfo = PredictorInfo {
    endianness: Endianness::LittleEndian,
    image_width: 7,
    image_height: 7,
    chunk_width: 4,
    chunk_height: 4,
    bits_per_sample: 8,
    samples_per_pixel: 1,
    sample_format: SampleFormat::Uint, // not used
    planar_configuration: PlanarConfiguration::Chunky,
};
const RES: [u8;16] = [
    0,1, 2,3,
    1,0, 1,2,

    2,1, 0,1,
    3,2, 1,0,
    ];
const RES_RIGHT: [u8;12] = [
    0,1, 2,
    1,0, 1,

    2,1, 0,
    3,2, 1,
    ];
const RES_BOT: [u8;12] = [
    0,1,2, 3,
    1,0,1, 2,

    2,1,0, 1,
    ];
const RES_BOT_RIGHT: [u8;9] = [
    0,1, 2,
    1,0, 1,

    2,1, 0,
    ];

#[test]
fn test_chunk_width_pixels() {
    let info = PRED_INFO;
    assert_eq!(info.chunks_across(), 2);
    assert_eq!(info.chunks_down(), 2);
    assert_eq!(info.chunk_width_pixels(0).unwrap(), info.chunk_width);
    assert_eq!(info.chunk_width_pixels(1).unwrap(), 3);
    info.chunk_width_pixels(2).unwrap_err();
    assert_eq!(info.chunk_height_pixels(0).unwrap(), info.chunk_height);
    assert_eq!(info.chunk_height_pixels(1).unwrap(), 3);
    info.chunk_height_pixels(2).unwrap_err();
}

#[test]
fn test_output_row_stride() {
    let mut info = PRED_INFO;
    assert_eq!(info.output_row_stride(0).unwrap(), 4);
    assert_eq!(info.output_row_stride(1).unwrap(), 3);
    info.output_row_stride(2).unwrap_err();
    info.samples_per_pixel = 2;
    assert_eq!(info.output_row_stride(0).unwrap(), 8);
    assert_eq!(info.output_row_stride(1).unwrap(), 6);
    info.bits_per_sample = 16;
    assert_eq!(info.output_row_stride(0).unwrap(), 16);
    assert_eq!(info.output_row_stride(1).unwrap(), 12);
    info.planar_configuration = PlanarConfiguration::Planar;
    assert_eq!(info.output_row_stride(0).unwrap(), 8);
    assert_eq!(info.output_row_stride(1).unwrap(), 6);
}

#[test]
fn test_output_rows() {
    let mut info = PRED_INFO;
    info.samples_per_pixel = 2;
    assert_eq!(info.output_rows(0).unwrap(), 4);
    assert_eq!(info.output_rows(1).unwrap(), 3);
    info.output_rows(2).unwrap_err();
    info.planar_configuration = PlanarConfiguration::Planar;
    assert_eq!(info.output_rows(0).unwrap(), 8);
    assert_eq!(info.output_rows(1).unwrap(), 6);
}


#[test]
fn test_hdiff_unpredict() {
    let mut predictor_info = PRED_INFO;
    let cases = [
        (0,0, vec![
            0i32, 1, 1, 1,
            1,-1, 1, 1,
            2,-1,-1, 1,
            3,-1,-1,-1,
        ], Vec::from(&RES[..])),
        (0,1, vec![
            0, 1, 1, 1,
            1,-1, 1, 1,
            2,-1,-1, 1,
        ], Vec::from(&RES_BOT[..])),
        (1,0, vec![
            0, 1, 1,
            1,-1, 1,
            2,-1,-1,
            3,-1,-1,
        ], Vec::from(&RES_RIGHT[..])),
        (1,1, vec![
            0, 1, 1,
            1,-1, 1,
            2,-1,-1,
        ], Vec::from(&RES_BOT_RIGHT[..])),
    ];
    for (x,_y, input, expected) in cases {
        println!("uints littleendian");
        predictor_info.endianness = Endianness::LittleEndian;
        predictor_info.bits_per_sample = 8;
        assert_eq!(-1i32 as u8, 255);
        println!("testing u8");
        let mut res = input.iter().map(|v| *v as u8).collect::<Vec<_>>();
        unpredict_hdiff(&mut res, &predictor_info, x).unwrap();
        assert_eq!(res, expected);
        assert_eq!(-1i32 as u16, u16::MAX);
        println!("testing u16");
        predictor_info.bits_per_sample = 16;
        let mut res = input.iter().flat_map(|v| (*v as u16).to_le_bytes()).collect::<Vec<_>>();
        let exp = expected.iter().flat_map(|v| (*v as u16).to_ne_bytes()).collect::<Vec<_>>();
        println!("result buffer: {:?}", &res);
        unpredict_hdiff(&mut res, &predictor_info, x).unwrap();
        assert_eq!(res, exp);
        assert_eq!(-1i32 as u32, u32::MAX);
        println!("testing u32");
        predictor_info.bits_per_sample = 32;
        let mut res = input.iter().flat_map(|v| (*v as u32).to_le_bytes()).collect::<Vec<_>>();
        let exp = expected.iter().flat_map(|v| (*v as u32).to_ne_bytes()).collect::<Vec<_>>();
        println!("result buffer: {:?}", &res);
        unpredict_hdiff(&mut res, &predictor_info, x).unwrap();
        assert_eq!(res, exp);
        assert_eq!(-1i32 as u64, u64::MAX);
        println!("testing u64");
        predictor_info.bits_per_sample = 64;
        let mut res = input.iter().flat_map(|v| (*v as u64).to_le_bytes()).collect::<Vec<_>>();
        let exp = expected.iter().flat_map(|v| (*v as u64).to_ne_bytes()).collect::<Vec<_>>();
        unpredict_hdiff(&mut res, &predictor_info, x).unwrap();
        assert_eq!(res, exp);

        println!("ints littleendian");
        predictor_info.bits_per_sample = 8;
        println!("testing i8");
        let mut res = input.iter().flat_map(|v| (*v as i8).to_le_bytes()).collect::<Vec<_>>();
        println!("{:?}", &res[..]);
        unpredict_hdiff(&mut res, &predictor_info, x).unwrap();
        assert_eq!(res, expected);
        println!("testing i16");
        predictor_info.bits_per_sample = 16;
        let mut res = input.iter().flat_map(|v| (*v as i16).to_le_bytes()).collect::<Vec<_>>();
        let exp = expected.iter().flat_map(|v| (*v as i16).to_ne_bytes()).collect::<Vec<_>>();
        unpredict_hdiff(&mut res, &predictor_info, x).unwrap();
        assert_eq!(res, exp);
        println!("testing i32");
        predictor_info.bits_per_sample = 32;
        let mut res = input.iter().flat_map(|v| v.to_le_bytes()).collect::<Vec<_>>();
        let exp = expected.iter().flat_map(|v| (*v as i32).to_ne_bytes()).collect::<Vec<_>>();
        unpredict_hdiff(&mut res, &predictor_info, x).unwrap();
        assert_eq!(res, exp);
        println!("testing i64");
        predictor_info.bits_per_sample = 64;
        let mut res = input.iter().flat_map(|v| (*v as i64).to_le_bytes()).collect::<Vec<_>>();
        let exp = expected.iter().flat_map(|v| (*v as i64).to_ne_bytes()).collect::<Vec<_>>();
        unpredict_hdiff(&mut res, &predictor_info, x).unwrap();
        assert_eq!(res, exp);

        println!("uints bigendian");
        predictor_info.endianness = Endianness::BigEndian;
        predictor_info.bits_per_sample = 8;
        assert_eq!(-1i32 as u8, 255);
        println!("testing u8");
        let mut res = input.iter().map(|v| *v as u8).collect::<Vec<_>>();
        unpredict_hdiff(&mut res, &predictor_info, x).unwrap();
        assert_eq!(res, expected);
        assert_eq!(-1i32 as u16, u16::MAX);
        println!("testing u16");
        predictor_info.bits_per_sample = 16;
        let mut res = input.iter().flat_map(|v| (*v as u16).to_be_bytes()).collect::<Vec<_>>();
        let exp = expected.iter().flat_map(|v| (*v as u16).to_ne_bytes()).collect::<Vec<_>>();
        println!("buffer: {:?}", &res);
        unpredict_hdiff(&mut res, &predictor_info, x).unwrap();
        assert_eq!(res, exp);
        assert_eq!(-1i32 as u32, u32::MAX);
        println!("testing u32");
        predictor_info.bits_per_sample = 32;
        let mut res = input.iter().flat_map(|v| (*v as u32).to_be_bytes()).collect::<Vec<_>>();
        let exp = expected.iter().flat_map(|v| (*v as u32).to_ne_bytes()).collect::<Vec<_>>();
        unpredict_hdiff(&mut res, &predictor_info, x).unwrap();
        assert_eq!(res, exp);
        assert_eq!(-1i32 as u64, u64::MAX);
        println!("testing u64");
        predictor_info.bits_per_sample = 64;
        let mut res = input.iter().flat_map(|v| (*v as u64).to_be_bytes()).collect::<Vec<_>>();
        let exp = expected.iter().flat_map(|v| (*v as u64).to_ne_bytes()).collect::<Vec<_>>();
        unpredict_hdiff(&mut res, &predictor_info, x).unwrap();
        assert_eq!(res, exp);

        println!("ints bigendian");
        predictor_info.bits_per_sample = 8;
        assert_eq!(-1i32 as u8, 255);
        println!("testing i8");
        let mut res = input.iter().flat_map(|v| (*v as i8).to_be_bytes()).collect::<Vec<_>>();
        unpredict_hdiff(&mut res, &predictor_info, x).unwrap();
        assert_eq!(res, expected);
        assert_eq!(-1i32 as u16, u16::MAX);
        println!("testing i16");
        predictor_info.bits_per_sample = 16;
        let mut res = input.iter().flat_map(|v| (*v as i16).to_be_bytes()).collect::<Vec<_>>();
        let exp = expected.iter().flat_map(|v| (*v as i16).to_ne_bytes()).collect::<Vec<_>>();
        unpredict_hdiff(&mut res, &predictor_info, x).unwrap();
        assert_eq!(res, exp);
        assert_eq!(-1i32 as u32, u32::MAX);
        println!("testing i32");
        predictor_info.bits_per_sample = 32;
        let mut res = input.iter().flat_map(|v| v.to_be_bytes()).collect::<Vec<_>>();
        let exp = expected.iter().flat_map(|v| (*v as i32).to_ne_bytes()).collect::<Vec<_>>();
        unpredict_hdiff(&mut res, &predictor_info, x).unwrap();
        assert_eq!(res, exp);
        assert_eq!(-1i32 as u64, u64::MAX);
        println!("testing i64");
        predictor_info.bits_per_sample = 64;
        let mut res = input.iter().flat_map(|v| (*v as i64).to_be_bytes()).collect::<Vec<_>>();
        let exp = expected.iter().flat_map(|v| (*v as i64).to_ne_bytes()).collect::<Vec<_>>();
        unpredict_hdiff(&mut res, &predictor_info, x).unwrap();
        assert_eq!(res, exp);
    }
}

#[test]
fn test_predict_f16() {
    // take a 4-value image
    let expect_le = [1,0,3,2,5,4,7,6u8];
    let _expected = [0,1,2,3,4,5,6,7u8];
    //                              0       1
    //                            0       1
    //                          0       1
    //                        0       1
    let _shuffled = [0,2,4,6,1,3,5,7u8];
    let mut diffed = [0,2,2,2,251,2,2,2];
    let info = PredictorInfo {
        endianness: Endianness::LittleEndian,
        image_width: 4+4,
        image_height: 4+1,
        chunk_width: 4,
        chunk_height: 4,
        bits_per_sample: 16,
        samples_per_pixel: 1,
        sample_format: SampleFormat::IEEEFP,
        planar_configuration: PlanarConfiguration::Chunky,
    };
    let mut res = [0u8;8];
    
    unpredict_float(&mut diffed, &mut res, &info, 1).unwrap();
    assert_eq!(res,expect_le);
}

#[test]
fn test_predict_f16_padding() {
    // take a 4-pixel image with 2 padding pixels
    let expect_le = [1,0,3,2u8]; // no padding
    let _expected = [0,1,2,3,0,0,0,0u8]; //padding added
    //                              0       1
    //                            0       1
    //                          0       1
    //                        0       1
    let _shuffled = [0,2,0,0,1,3,0,0u8];
    let mut diffed = [0,2,254,0,1,2,253,0];
    let info = PredictorInfo {
        endianness: Endianness::LittleEndian,
        image_width: 4+2,
        image_height: 4+1,
        chunk_width: 4,
        chunk_height: 4,
        bits_per_sample: 16,
        samples_per_pixel: 1,
        sample_format: SampleFormat::IEEEFP,
        planar_configuration: PlanarConfiguration::Chunky,
    };
    // let input = Bytes::from_owner(diffed);
    let mut res = [0u8; 4];
    
    unpredict_float(&mut diffed, &mut res, &info, 1).unwrap();
    assert_eq!(res, expect_le);
}

#[test]
fn test_fpredict_f32() {
    // let's take this 2-value image where we only look at bytes
    let expect_le  = [3,2,  1,0,  7,6,  5,4u8];
    let _expected  = [0,1,  2,3,  4,5,  6,7u8];
    //                           0     1     2     3   \_ de-shuffling indices
    //                         0     1     2     3     /  (the one the function uses)
    let _shuffled  = [0,4,  1,5,  2,6,  3,7u8];
    let mut diffed     = [0,4,253,4,253,4,253,4u8];
    println!("expected: {expect_le:?}");
    let info = PredictorInfo {
        endianness: Endianness::LittleEndian,
        image_width: 2,
        image_height: 2 + 1,
        chunk_width: 2,
        chunk_height: 2,
        bits_per_sample: 32,
        samples_per_pixel: 1,
        sample_format: SampleFormat::IEEEFP,
        planar_configuration: PlanarConfiguration::Chunky,
    };
    let mut res = [0u8; 8];
    unpredict_float(&mut diffed, &mut res, &info, 0).unwrap();
    assert_eq!(res, expect_le);
}

#[test]
fn test_fpredict_f64() {
    assert_eq!(f64::from_le_bytes([7,6,5,4,3,2,1,0]), f64::from_bits(0x00_01_02_03_04_05_06_07));
    // let's take this 2-value image
    let expect_le =  [7,6,5,4,3, 2,1, 0,15,14,13,12,11,10,9,8u8];
    let _expected  = [0,1,2,3,4, 5,6, 7,8, 9,10,11,12,13,14,15u8];
    //                           0   1    2    3    4     5     6     7
    //                         0   1   2    3    4     5     6     7
    let _shuffled = [0,8,1,9,2,10,3,11,4,12, 5,13, 6,14, 7,15u8];
    let mut diffed = [0,8,249,8,249,8,249,8,249,8,249,8,249,8,249,8u8];
    let info = PredictorInfo {
        endianness: Endianness::LittleEndian,
        image_width: 2,
        image_height: 2 + 1,
        chunk_width: 2,
        chunk_height: 2,
        bits_per_sample: 64,
        samples_per_pixel: 1,
        sample_format: SampleFormat::IEEEFP,
        planar_configuration: PlanarConfiguration::Chunky,
    };
    let mut res = [0u8;16];
    unpredict_float(&mut diffed, &mut res, &info, 0).unwrap();
    assert_eq!(res, expect_le);
}
