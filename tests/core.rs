use raytracer::perlin::{perlin_generate_perm, permute, permute_with, LatticeHash, LATTICE};
use raytracer::ppm::{encode_ppm, push_decimal};
use raytracer::rect::{plane_axes, Plane};
use raytracer::rotate::{get_axis, Axis};
use raytracer::texture::ImageTexture;

fn identity(n: usize) -> Vec<usize> {
    (0..n).collect()
}

fn assert_permutation_of_range(p: &[usize], n: usize) {
    let mut sorted = p.to_vec();
    sorted.sort();
    assert_eq!(sorted, identity(n));
}

#[test]
fn rotation_axes_are_cyclic() {
    assert_eq!(get_axis(&Axis::X), (0, 1, 2));
    assert_eq!(get_axis(&Axis::Y), (1, 2, 0));
    assert_eq!(get_axis(&Axis::Z), (2, 0, 1));
}

#[test]
fn rectangle_axes_follow_the_normal() {
    assert_eq!(plane_axes(&Plane::YZ), (0, 1, 2));
    assert_eq!(plane_axes(&Plane::ZX), (1, 2, 0));
    assert_eq!(plane_axes(&Plane::XY), (2, 0, 1));
}

fn two_by_two() -> ImageTexture {
    // top row: red, green; bottom row: blue, white
    let data = vec![255, 0, 0, 0, 255, 0, 0, 0, 255, 255, 255, 255];
    ImageTexture::new(data, 2, 2)
}

#[test]
fn image_texture_keeps_its_size() {
    let t = two_by_two();
    assert_eq!(t.nx(), 2);
    assert_eq!(t.ny(), 2);
}

#[test]
fn image_texel_reads_row_major_from_the_top() {
    let t = two_by_two();
    assert_eq!(t.texel(0, 0), (255, 0, 0));
    assert_eq!(t.texel(1, 0), (0, 255, 0));
    assert_eq!(t.texel(0, 1), (0, 0, 255));
    assert_eq!(t.texel(1, 1), (255, 255, 255));
}

#[test]
fn image_texel_clamps_past_the_edges() {
    let t = two_by_two();
    assert_eq!(t.texel(2, 0), (0, 255, 0));
    assert_eq!(t.texel(0, 7), (0, 0, 255));
    assert_eq!(t.texel(usize::MAX, usize::MAX), (255, 255, 255));
}

#[test]
fn image_texel_of_a_single_texel() {
    let t = ImageTexture::new(vec![1, 2, 3], 1, 1);
    assert_eq!(t.texel(0, 0), (1, 2, 3));
    assert_eq!(t.texel(5, 9), (1, 2, 3));
}

#[test]
fn permute_with_applies_picks_from_the_back() {
    // i = 3 swaps with 0, i = 2 with 2, i = 1 with 0, i = 0 with 0
    let mut p = vec![10, 11, 12, 13];
    permute_with(&mut p, &vec![0, 0, 2, 0]);
    assert_eq!(p, vec![11, 13, 12, 10]);
}

#[test]
fn permute_with_identity_picks_changes_nothing() {
    let mut p = vec![4, 3, 2, 1, 0];
    permute_with(&mut p, &vec![0, 1, 2, 3, 4]);
    assert_eq!(p, vec![4, 3, 2, 1, 0]);
}

#[test]
fn permute_with_touches_only_the_prefix() {
    let mut p = vec![1, 2, 3, 4];
    permute_with(&mut p, &vec![0, 0]);
    assert_eq!(p, vec![2, 1, 3, 4]);
}

#[test]
fn permute_keeps_the_entries() {
    let mut p = identity(50);
    permute(&mut p, 50);
    assert_permutation_of_range(&p, 50);
}

#[test]
fn permute_of_an_empty_prefix_changes_nothing() {
    let mut p = vec![9, 8, 7];
    permute(&mut p, 0);
    assert_eq!(p, vec![9, 8, 7]);
}

#[test]
fn generated_permutation_covers_the_lattice() {
    let p = perlin_generate_perm();
    assert_eq!(p.len(), LATTICE);
    assert_permutation_of_range(&p, LATTICE);
}

#[test]
fn generated_permutations_are_shuffled() {
    // 256! outcomes: five draws all equal to the identity do not happen
    let all_identity = (0..5).all(|_| perlin_generate_perm() == identity(LATTICE));
    assert!(!all_identity);
}

#[test]
fn lattice_hash_of_identity_tables_is_exclusive_or() {
    let h = LatticeHash::from_perms(identity(256), identity(256), identity(256));
    assert_eq!(h.hash(1, 2, 3), 1 ^ 2 ^ 3);
    assert_eq!(h.hash(0, 0, 0), 0);
    assert_eq!(h.hash(255, 0, 15), 255 ^ 15);
}

#[test]
fn lattice_hash_wraps_every_lattice_size() {
    let h = LatticeHash::from_perms(identity(256), identity(256), identity(256));
    assert_eq!(h.hash(256 + 1, 512 + 2, 3), 1 ^ 2 ^ 3);
    assert_eq!(h.hash(usize::MAX, 0, 0), 255);
}

#[test]
fn lattice_hash_reads_each_table_at_its_own_coordinate() {
    let reversed: Vec<usize> = (0..256).rev().collect();
    let h = LatticeHash::from_perms(reversed, identity(256), identity(256));
    assert_eq!(h.hash(0, 0, 0), 255);
    assert_eq!(h.hash(0, 255, 0), 0);
    assert_eq!(h.hash(10, 3, 5), 245 ^ 3 ^ 5);
}

#[test]
fn random_lattice_hash_stays_in_range() {
    let h = LatticeHash::new();
    for i in 0..300 {
        assert!(h.hash(i, 3 * i, 7 * i) < LATTICE);
    }
}

fn text(bytes: Vec<u8>) -> String {
    String::from_utf8(bytes).unwrap()
}

#[test]
fn decimal_digits() {
    let mut out = Vec::new();
    push_decimal(&mut out, 0);
    out.push(b',');
    push_decimal(&mut out, 7);
    out.push(b',');
    push_decimal(&mut out, 255);
    out.push(b',');
    push_decimal(&mut out, 1000);
    out.push(b',');
    push_decimal(&mut out, u32::MAX);
    assert_eq!(text(out), "0,7,255,1000,4294967295");
}

#[test]
fn ppm_of_one_black_pixel() {
    assert_eq!(text(encode_ppm(1, 1, &vec![0, 0, 0])), "P3\n1 1\n255\n0 0 0\n");
}

#[test]
fn ppm_lists_pixels_in_order() {
    let rgb = vec![255, 128, 0, 9, 10, 99];
    assert_eq!(text(encode_ppm(2, 1, &rgb)), "P3\n2 1\n255\n255 128 0\n9 10 99\n");
}

#[test]
fn ppm_of_an_empty_raster_is_its_header() {
    assert_eq!(text(encode_ppm(0, 3, &vec![])), "P3\n0 3\n255\n");
}

#[test]
fn ppm_header_of_a_large_raster() {
    let rgb = vec![1u8; 3 * 800 * 2];
    let out = text(encode_ppm(800, 2, &rgb));
    assert!(out.starts_with("P3\n800 2\n255\n1 1 1\n"));
    assert_eq!(out.lines().count(), 3 + 1600);
}
