//! The streaming pipeline: row packing, incremental compression, PNG
//! framing, ordering and backpressure.

use std::io::Read;

use kyros::compress::{compress_all, pack_rows, CompressionStage, StageState};
use kyros::fixed::FIX_ONE;
use kyros::persist::{PersistState, PngStream};
use kyros::pipeline::Coordinator;
use kyros::plan::plan;
use kyros::render::produce_chunk;
use kyros::structs::{Config, MathFrame, Rgba};

fn small_config() -> Config {
    Config {
        c_init: None,
        size_x: 4,
        size_y: 4,
        max_i: 50,
        gen_formula: String::from("SD"),
        color_formula: String::from("ROTATIONAL"),
        rate_of_color_change: 9 * FIX_ONE,
        shadow_formula: String::from("NONE"),
        background: Rgba {
            r: 10,
            g: 20,
            b: 30,
            a: 40,
        },
        foreground: Rgba {
            r: 1,
            g: 2,
            b: 3,
            a: 255,
        },
        travel_distance: false,
        rgba: true,
        gpu: false,
        chunk_size: 8,
        compression: 6,
        compression_threads: 1,
        read_config: None,
        save_method: String::from("MOCK"),
        filename: String::from("out"),
        math_frame: MathFrame {
            factor_x: 87381,
            factor_y: 87381,
            offset_x: -131072,
            offset_y: -131072,
        },
    }
}

fn inflate(data: &[u8]) -> Vec<u8> {
    let mut out = Vec::new();
    flate2::read::ZlibDecoder::new(data)
        .read_to_end(&mut out)
        .unwrap();
    out
}

/// Extracts the payloads of all chunks with the given type tag, in file
/// order.
fn chunk_payloads(png: &[u8], tag: &[u8; 4]) -> Vec<Vec<u8>> {
    let mut out = Vec::new();
    let mut at = 8usize;
    while at + 8 <= png.len() {
        let len = u32::from_be_bytes([png[at], png[at + 1], png[at + 2], png[at + 3]]) as usize;
        let ctype = &png[at + 4..at + 8];
        if ctype == tag {
            out.push(png[at + 8..at + 8 + len].to_vec());
        }
        at += 12 + len;
    }
    out
}

#[test]
fn pack_rows_prefixes_each_row() {
    let data = vec![1u8, 2, 3, 4, 5, 6];
    let packed = pack_rows(&data, 3, 2);
    assert_eq!(packed, vec![0, 1, 2, 3, 0, 4, 5, 6]);
}

#[test]
fn compress_all_roundtrip() {
    let data: Vec<u8> = (0u8..=255).cycle().take(1000).collect();
    let z = compress_all(&data, 6);
    assert_ne!(z, data);
    assert_eq!(inflate(&z), data);
}

#[test]
fn compress_all_deterministic() {
    let data: Vec<u8> = (0u8..=255).cycle().take(500).collect();
    assert_eq!(compress_all(&data, 6), compress_all(&data, 6));
}

#[test]
fn staged_stream_equals_whole_buffer_compression_after_inflate() {
    // The staged, sync-flushed stream and the one-shot stream differ as
    // bytes but inflate to the same data.
    let data: Vec<u8> = (0u8..=255).cycle().take(300).collect();
    let mut stage = CompressionStage::new(6, 2);
    let mut staged: Vec<u8> = Vec::new();
    staged.extend_from_slice(&stage.accept_chunk(0, &data[..100].to_vec()));
    staged.extend_from_slice(&stage.accept_chunk(1, &data[100..].to_vec()));
    assert_eq!(inflate(&staged), data);
    assert_eq!(inflate(&compress_all(&data, 6)), data);
}

#[test]
fn staged_fragments_deterministic() {
    let chunks = [vec![5u8; 80], vec![6u8; 80]];
    let mut s1 = CompressionStage::new(6, 2);
    let mut s2 = CompressionStage::new(6, 2);
    for (i, c) in chunks.iter().enumerate() {
        assert_eq!(s1.accept_chunk(i as u32, c), s2.accept_chunk(i as u32, c));
    }
}

#[test]
fn render_to_png_deterministic() {
    let config = small_config();
    let text = b"{}".to_vec();
    let a = kyros::pipeline::render_to_png(&config, &text).unwrap();
    let b = kyros::pipeline::render_to_png(&config, &text).unwrap();
    assert_eq!(a, b);
}

#[test]
fn stage_compresses_chunks_in_order() {
    let a = vec![1u8; 100];
    let b = vec![2u8; 100];
    let c = vec![3u8; 50];
    let mut stage = CompressionStage::new(6, 3);
    let mut stream: Vec<u8> = Vec::new();
    for (i, chunk) in [&a, &b, &c].iter().enumerate() {
        let frag = stage.accept_chunk(i as u32, chunk);
        stream.extend_from_slice(&frag);
    }
    assert_eq!(stage.state, StageState::Done);
    let mut expected = a.clone();
    expected.extend_from_slice(&b);
    expected.extend_from_slice(&c);
    assert_eq!(inflate(&stream), expected);
}

#[test]
fn png_stream_emits_idat_in_submission_order() {
    // Synthetic chunks through the compression stage and the PNG
    // framer: the IDAT payload order must match the submission order.
    let chunks: Vec<Vec<u8>> = vec![vec![0u8; 64], vec![9u8; 64], vec![17u8; 32]];
    let mut stage = CompressionStage::new(6, chunks.len() as u32);
    let mut png = PngStream::new();
    let text = b"synthetic".to_vec();
    let mut file: Vec<u8> = Vec::new();
    file.extend_from_slice(&png.header(4, 4, true, &text, 6).unwrap());
    let mut compressed_in_order: Vec<u8> = Vec::new();
    for (i, chunk) in chunks.iter().enumerate() {
        let frag = stage.accept_chunk(i as u32, chunk);
        compressed_in_order.extend_from_slice(&frag);
        file.extend_from_slice(&png.idat(&frag));
    }
    file.extend_from_slice(&png.finish());
    assert_eq!(png.state, PersistState::Finished);

    // The IDAT payloads, concatenated in file order, are exactly the
    // compressed stream in submission order; inflating them returns the
    // chunks in order.
    let idats = chunk_payloads(&file, b"IDAT");
    let joined: Vec<u8> = idats.concat();
    assert_eq!(joined, compressed_in_order);
    let mut expected: Vec<u8> = Vec::new();
    for chunk in &chunks {
        expected.extend_from_slice(chunk);
    }
    assert_eq!(inflate(&joined), expected);
}

#[test]
fn streamed_render_is_a_valid_png() {
    let config = small_config();
    let chunks = plan(config.size_y, config.size_x, config.chunk_size).unwrap();
    let mut stage = CompressionStage::new(config.compression, chunks.len() as u32);
    let mut png = PngStream::new();
    let text = b"{\"size_x\":4}".to_vec();
    let mut file: Vec<u8> = Vec::new();
    file.extend_from_slice(
        &png.header(config.size_x, config.size_y, config.rgba, &text, 6)
            .unwrap(),
    );
    let mut raw: Vec<u8> = Vec::new();
    for c in &chunks {
        let buf = produce_chunk(&config, c).unwrap();
        raw.extend_from_slice(&buf);
        let packed = pack_rows(&buf, config.size_x * 4, c.row_count);
        let frag = stage.accept_chunk(c.index, &packed);
        file.extend_from_slice(&png.idat(&frag));
    }
    file.extend_from_slice(&png.finish());

    // The header fields sit at fixed offsets: IHDR width 4, height 4,
    // bit depth 8, color type RGBA.
    assert_eq!(&file[0..8], &[137, 80, 78, 71, 13, 10, 26, 10]);
    assert_eq!(&file[8..16], &[0, 0, 0, 13, 73, 72, 68, 82]);
    assert_eq!(&file[16..20], &[0, 0, 0, 4]);
    assert_eq!(&file[20..24], &[0, 0, 0, 4]);
    assert_eq!(file[24], 8);
    assert_eq!(file[25], 6);

    // A stock PNG decoder accepts the stream and returns the raw pixels.
    let decoder = png::Decoder::new(std::io::Cursor::new(file.clone()));
    let mut reader = decoder.read_info().unwrap();
    let mut pixels = vec![0u8; reader.output_buffer_size().unwrap()];
    let info = reader.next_frame(&mut pixels).unwrap();
    assert_eq!(info.width, 4);
    assert_eq!(info.height, 4);
    assert_eq!(pixels.len(), raw.len());
    assert_eq!(pixels, raw);
    assert_eq!(&pixels[0..4], &[10, 20, 30, 40]);
}

#[test]
fn render_to_png_produces_decodable_stream() {
    let config = small_config();
    let text = b"{\"run\":1}".to_vec();
    let file = kyros::pipeline::render_to_png(&config, &text).unwrap();
    let expected = kyros::render::cpu_eval(&config).unwrap();

    let decoder = png::Decoder::new(std::io::Cursor::new(file));
    let mut reader = decoder.read_info().unwrap();
    // The embedded configuration text chunk is present and carries the
    // text handed in.
    let ztxt = reader.info().compressed_latin1_text.clone();
    assert_eq!(ztxt.len(), 1);
    assert_eq!(ztxt[0].keyword, "kyros_config");
    let mut chunk = ztxt[0].clone();
    chunk.decompress_text().unwrap();
    assert_eq!(chunk.get_text().unwrap(), "{\"run\":1}");

    let mut pixels = vec![0u8; reader.output_buffer_size().unwrap()];
    let info = reader.next_frame(&mut pixels).unwrap();
    assert_eq!(info.width, 4);
    assert_eq!(info.height, 4);
    assert_eq!(pixels, expected);
}

#[test]
fn backpressure_blocks_at_capacity_one() {
    let mut c = Coordinator::new(3, 1);
    assert!(c.can_submit());
    let first = c.note_computed();
    assert_eq!(first, 0);
    // One chunk is in flight and none consumed: the producer must hold.
    assert!(!c.can_submit());
    let compressed = c.note_compressed();
    assert_eq!(compressed, 0);
    assert!(c.can_submit());
    let second = c.note_computed();
    assert_eq!(second, 1);
    assert!(!c.can_submit());
}

#[test]
fn coordinator_runs_to_completion_in_order() {
    let total = 5u32;
    let mut c = Coordinator::new(total, 2);
    let mut write_order: Vec<u32> = Vec::new();
    while !c.is_done() {
        if c.can_submit() {
            c.note_computed();
        } else if c.compressed < c.computed {
            c.note_compressed();
        }
        if c.written < c.compressed {
            write_order.push(c.note_written());
        }
    }
    assert_eq!(write_order, vec![0, 1, 2, 3, 4]);
}
