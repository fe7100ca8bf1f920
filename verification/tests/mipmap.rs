use kiss3d_textures::resource::mipmap::{
    box_footprint_offsets, mip_chain, mip_level_count, next_mip_extent, MipLevel,
};

#[test]
fn without_mipmaps_there_is_one_level() {
    assert_eq!(mip_level_count(1024, 512, false), 1);
    assert_eq!(mip_chain(5, 3, false), vec![MipLevel { width: 5, height: 3, bytes_per_row: 20 }]);
}

#[test]
fn the_level_count_is_what_the_float_log_gives() {
    for larger in 0..=20000u32 {
        let float = (larger as f32).log2().floor() as u32 + 1;
        assert_eq!(mip_level_count(larger, 1, true), float, "{larger}");
        assert_eq!(mip_level_count(1, larger, true), float, "{larger}");
    }
    for k in 15..=20u32 {
        for larger in [(1u32 << k) - 1, 1u32 << k, (1u32 << k) + 1] {
            let float = (larger as f32).log2().floor() as u32 + 1;
            assert_eq!(mip_level_count(larger, 7, true), float, "{larger}");
        }
    }
    assert_eq!(mip_level_count(0, 0, true), 1);
    assert_eq!(mip_level_count(u32::MAX, 3, true), 32);
}

#[test]
fn the_chain_halves_down_to_one_texel() {
    let chain = mip_chain(8, 3, true);
    let extents: Vec<(u32, u32, u32)> =
        chain.iter().map(|l| (l.width, l.height, l.bytes_per_row)).collect();
    assert_eq!(extents, vec![(8, 3, 32), (4, 1, 16), (2, 1, 8), (1, 1, 4)]);
}

#[test]
fn an_odd_extent_rounds_down() {
    assert_eq!(next_mip_extent(7), 3);
    assert_eq!(next_mip_extent(1), 1);
    assert_eq!(next_mip_extent(0), 1);
    let chain = mip_chain(7, 7, true);
    assert_eq!(chain.len(), 3);
    assert_eq!((chain[2].width, chain[2].height), (1, 1));
}

#[test]
fn the_box_filter_reads_a_two_by_two_block() {
    // A 4x4 level: texel (1, 1) of the next level reads (2..4, 2..4).
    assert_eq!(box_footprint_offsets(4, 4, 1, 1), vec![(2 * 4 + 2) * 4, (2 * 4 + 3) * 4, (3 * 4 + 2) * 4, (3 * 4 + 3) * 4]);
    assert_eq!(box_footprint_offsets(4, 4, 0, 0), vec![0, 4, 16, 20]);
}

#[test]
fn the_box_filter_drops_what_falls_outside() {
    // One column: only the left texel of each pair exists.
    assert_eq!(box_footprint_offsets(1, 4, 0, 1), vec![2 * 4, 3 * 4]);
    // One texel: it alone.
    assert_eq!(box_footprint_offsets(1, 1, 0, 0), vec![0]);
    // An odd width leaves its last column out.
    assert_eq!(box_footprint_offsets(3, 2, 0, 0), vec![0, 4, 12, 16]);
    // An empty level has nothing to read.
    assert!(box_footprint_offsets(0, 0, 0, 0).is_empty());
}

#[test]
fn each_texel_is_read_into_at_most_one_texel_of_the_next_level() {
    for (width, height) in [(5u32, 3u32), (4, 4), (1, 7), (6, 1)] {
        let mut seen = Vec::new();
        for y in 0..next_mip_extent(height) {
            for x in 0..next_mip_extent(width) {
                let block = box_footprint_offsets(width, height, x, y);
                assert!(!block.is_empty());
                for offset in block {
                    assert!(offset + 4 <= (width * height * 4) as usize);
                    assert!(!seen.contains(&offset), "{width}x{height}: {offset} read twice");
                    seen.push(offset);
                }
            }
        }
    }
}
