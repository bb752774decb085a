use tracer::aabb::{Key3, AABB};
use tracer::bvh::{bvh_node, sort_by_axis, BvhItem, BvhPlan};
use tracer::color::{quantize_channel, Color};
use tracer::config::{parse_format, parse_scene, Config, ConfigError, OutputFormat, SceneKind};
use tracer::frame::Frame;
use tracer::perlin::{perlin_generate_perm, permute, Perlin};
use tracer::rng::{Rng, FALLBACK_SEED};
use tracer::shader::{shade_step, ShadeAction, ShadeEvent, MAX_DEPTH};

// ---- colors ----------------------------------------------------------

#[test]
fn color_constants() {
    let b = Color::black();
    assert_eq!((b.r, b.g, b.b), (0, 0, 0));
    let w = Color::white();
    assert_eq!((w.r, w.g, w.b), (255, 255, 255));
    let r = Color::red();
    assert_eq!((r.r, r.g, r.b), (255, 0, 0));
    let g = Color::green();
    assert_eq!((g.r, g.g, g.b), (0, 255, 0));
    let u = Color::blue();
    assert_eq!((u.r, u.g, u.b), (0, 0, 255));
}

#[test]
fn color_bw_is_truncated_mean() {
    let c = Color::new(3, 6, 10);
    let m = c.bw();
    assert_eq!((m.r, m.g, m.b), (6, 6, 6));
    let w = Color::white().bw();
    assert_eq!((w.r, w.g, w.b), (255, 255, 255));
    let k = Color::black().bw();
    assert_eq!((k.r, k.g, k.b), (0, 0, 0));
}

#[test]
fn quantize_channel_clamps() {
    assert_eq!(quantize_channel(-400), 0);
    assert_eq!(quantize_channel(-1), 0);
    assert_eq!(quantize_channel(0), 0);
    assert_eq!(quantize_channel(128), 128);
    assert_eq!(quantize_channel(255), 255);
    assert_eq!(quantize_channel(256), 255);
    assert_eq!(quantize_channel(100_000), 255);
}

// ---- random stream ---------------------------------------------------

#[test]
fn rng_same_seed_same_stream() {
    let mut a = Rng::new(42);
    let mut b = Rng::new(42);
    for _ in 0..100 {
        assert_eq!(a.next(), b.next());
    }
}

#[test]
fn rng_below_is_in_range() {
    let mut r = Rng::new(7);
    for n in 1..64u32 {
        for _ in 0..8 {
            assert!(r.below(n) < n);
        }
    }
}

#[test]
fn rng_zero_seed_uses_fallback() {
    let mut a = Rng::new(0);
    let mut b = Rng::new(FALLBACK_SEED);
    assert_eq!(a.next(), b.next());
}

// ---- perlin tables ---------------------------------------------------

#[test]
fn generated_table_is_a_permutation() {
    let mut rng = Rng::new(1234);
    let v = perlin_generate_perm(&mut rng);
    assert_eq!(v.len(), 256);
    let mut sorted = v.clone();
    sorted.sort();
    let expected: Vec<usize> = (0..256).collect();
    assert_eq!(sorted, expected);
}

#[test]
fn permute_preserves_elements() {
    let mut rng = Rng::new(99);
    let mut v: Vec<usize> = (0..10).map(|i| i * i).collect();
    permute(&mut v, 10, &mut rng);
    let mut sorted = v.clone();
    sorted.sort();
    let expected: Vec<usize> = (0..10).map(|i| i * i).collect();
    assert_eq!(sorted, expected);
}

#[test]
fn perlin_is_deterministic_for_a_seed() {
    let mut r1 = Rng::new(555);
    let mut r2 = Rng::new(555);
    let p1 = Perlin::new(&mut r1);
    let p2 = Perlin::new(&mut r2);
    assert_eq!(p1.perm_x, p2.perm_x);
    assert_eq!(p1.perm_y, p2.perm_y);
    assert_eq!(p1.perm_z, p2.perm_z);
    assert_eq!(p1.noise_index(17, 3, 250), p2.noise_index(17, 3, 250));
}

#[test]
fn noise_index_combines_lookups_and_stays_below_256() {
    let ident: Vec<usize> = (0..256).collect();
    let p = Perlin { perm_x: ident.clone(), perm_y: ident.clone(), perm_z: ident };
    assert_eq!(p.noise_index(1, 2, 4), 1 ^ 2 ^ 4);
    assert_eq!(p.noise_index(256, 0, 0), 0);
    assert_eq!(p.noise_index(300, 1, 0), (300 % 256) ^ 1);
    let mut rng = Rng::new(8);
    let q = Perlin::new(&mut rng);
    for i in 0..600 {
        assert!(q.noise_index(i, 2 * i, 3 * i) < 256);
    }
}

// ---- bounding boxes --------------------------------------------------

fn kbox(minx: i64, miny: i64, minz: i64, maxx: i64, maxy: i64, maxz: i64) -> AABB {
    AABB::new(
        Key3 { x: minx, y: miny, z: minz },
        Key3 { x: maxx, y: maxy, z: maxz },
    )
}

#[test]
fn union_missing_is_identity() {
    let a = kbox(0, 1, 2, 3, 4, 5);
    assert_eq!(AABB::bound_boxes(a, AABB::Missing), a);
    assert_eq!(AABB::bound_boxes(AABB::Missing, a), a);
    assert_eq!(AABB::bound_boxes(AABB::Missing, AABB::Missing), AABB::Missing);
}

#[test]
fn union_is_commutative_and_componentwise() {
    let a = kbox(0, 0, 0, 5, 5, 5);
    let b = kbox(-3, 2, 1, 2, 9, 4);
    let u = AABB::bound_boxes(a, b);
    assert_eq!(u, kbox(-3, 0, 0, 5, 9, 5));
    assert_eq!(AABB::bound_boxes(b, a), u);
}

// ---- hierarchy builder -----------------------------------------------

// Walks a plan: checks that every node's box is the union of its
// children's boxes, and collects the leaf items.
fn walk(plan: &BvhPlan, out: &mut Vec<(usize, AABB)>) -> AABB {
    match plan {
        BvhPlan::EmptyList => AABB::Missing,
        BvhPlan::Leaf { id, bbox } => {
            out.push((*id, *bbox));
            *bbox
        }
        BvhPlan::Node { bbox, left, right } => {
            let lb = walk(left, out);
            let rb = walk(right, out);
            assert_eq!(*bbox, AABB::bound_boxes(lb, rb));
            *bbox
        }
    }
}

#[test]
fn sorting_is_stable_and_boxless_items_hold_their_place() {
    // keys on the first axis: 5, 3, none, 3, 1; an item without a box never
    // compares strictly, so it neither moves nor lets later items pass it
    let mut items = vec![
        BvhItem { id: 0, bbox: kbox(5, 0, 0, 6, 1, 1) },
        BvhItem { id: 1, bbox: kbox(3, 0, 0, 6, 1, 1) },
        BvhItem { id: 2, bbox: AABB::Missing },
        BvhItem { id: 3, bbox: kbox(3, 9, 9, 6, 10, 10) },
        BvhItem { id: 4, bbox: kbox(1, 0, 0, 6, 1, 1) },
    ];
    sort_by_axis(&mut items, 0);
    let ids: Vec<usize> = items.iter().map(|it| it.id).collect();
    assert_eq!(ids, vec![1, 0, 2, 4, 3]);
}

#[test]
fn bvh_of_nothing_is_the_empty_list() {
    let mut rng = Rng::new(1);
    let p = bvh_node(Vec::new(), &mut rng);
    assert!(matches!(p, BvhPlan::EmptyList));
}

#[test]
fn bvh_of_one_item_is_that_leaf() {
    let mut rng = Rng::new(1);
    let b = kbox(0, 0, 0, 1, 1, 1);
    let p = bvh_node(vec![BvhItem { id: 7, bbox: b }], &mut rng);
    match p {
        BvhPlan::Leaf { id, bbox } => {
            assert_eq!(id, 7);
            assert_eq!(bbox, b);
        }
        other => panic!("expected a leaf, got {:?}", other),
    }
}

#[test]
fn bvh_node_boxes_are_unions_of_their_leaves() {
    let mut rng = Rng::new(2024);
    let mut items = Vec::new();
    let coords: [i64; 7] = [4, -2, 9, 0, -7, 12, 3];
    for (i, c) in coords.iter().enumerate() {
        items.push(BvhItem {
            id: i,
            bbox: kbox(*c, -*c, 2 * c, *c + 2, -*c + 2, 2 * c + 2),
        });
    }
    let p = bvh_node(items.clone(), &mut rng);
    let mut found = Vec::new();
    let root_box = walk(&p, &mut found);
    // every node's box was checked inside walk; the root covers all leaves
    let mut expected = AABB::Missing;
    for it in &items {
        expected = AABB::bound_boxes(expected, it.bbox);
    }
    assert_eq!(root_box, expected);
    // the leaves are exactly the inputs
    assert_eq!(found.len(), items.len());
    found.sort_by_key(|(id, _)| *id);
    for (i, it) in items.iter().enumerate() {
        assert_eq!(found[i].0, it.id);
        assert_eq!(found[i].1, it.bbox);
    }
}

#[test]
fn bvh_is_deterministic_for_a_seed() {
    let items: Vec<BvhItem> = (0..9)
        .map(|i| BvhItem {
            id: i,
            bbox: kbox(
                (i as i64 * 37) % 11,
                (i as i64 * 13) % 7,
                i as i64,
                (i as i64 * 37) % 11 + 1,
                (i as i64 * 13) % 7 + 1,
                i as i64 + 1,
            ),
        })
        .collect();
    let mut r1 = Rng::new(31);
    let mut r2 = Rng::new(31);
    let p1 = bvh_node(items.clone(), &mut r1);
    let p2 = bvh_node(items, &mut r2);
    assert_eq!(format!("{:?}", p1), format!("{:?}", p2));
}

// ---- configuration ---------------------------------------------------

#[test]
fn default_config_values() {
    let c = Config::default();
    assert_eq!(c.format, "PNG");
    assert_eq!(c.out, "./out.png");
    assert_eq!(c.scene, "random_scene");
    assert_eq!(c.samples, 1);
    assert_eq!(c.width, 400);
    assert_eq!(c.height, 200);
}

#[test]
fn format_names_are_matched_case_insensitively() {
    let mut c = Config::default();
    c.format = "png".to_owned();
    assert_eq!(c.format(), Ok(OutputFormat::Png));
    c.format = "jpeg".to_owned();
    assert_eq!(c.format(), Ok(OutputFormat::Jpeg));
    c.format = "Jpg".to_owned();
    assert_eq!(c.format(), Ok(OutputFormat::Jpeg));
    c.format = "WEBP".to_owned();
    assert_eq!(c.format(), Ok(OutputFormat::Webp));
    c.format = "gif".to_owned();
    assert_eq!(c.format(), Ok(OutputFormat::Gif));
    c.format = "bmp".to_owned();
    assert_eq!(c.format(), Ok(OutputFormat::Bmp));
    c.format = "ico".to_owned();
    assert_eq!(c.format(), Ok(OutputFormat::Ico));
}

#[test]
fn unknown_format_is_an_error() {
    let mut c = Config::default();
    c.format = "tiff".to_owned();
    assert_eq!(
        c.format(),
        Err(ConfigError::UnknownFormat("TIFF".to_owned()))
    );
    assert_eq!(
        parse_format("png".to_owned()),
        Err(ConfigError::UnknownFormat("png".to_owned()))
    );
}

#[test]
fn scene_names_are_matched_case_insensitively() {
    let mut c = Config::default();
    assert_eq!(c.scene(), Ok(SceneKind::RandomScene));
    c.scene = "Empty".to_owned();
    assert_eq!(c.scene(), Ok(SceneKind::Empty));
    c.scene = "SPHERE".to_owned();
    assert_eq!(c.scene(), Ok(SceneKind::Sphere));
    c.scene = "spheres".to_owned();
    assert_eq!(c.scene(), Ok(SceneKind::Spheres));
    c.scene = "TWO_SPHERES".to_owned();
    assert_eq!(c.scene(), Ok(SceneKind::TwoSpheres));
    c.scene = "two_perlin_spheres".to_owned();
    assert_eq!(c.scene(), Ok(SceneKind::TwoPerlinSpheres));
}

#[test]
fn unknown_scene_is_an_error() {
    let mut c = Config::default();
    c.scene = "Cornell_Box".to_owned();
    assert_eq!(
        c.scene(),
        Err(ConfigError::UnknownScene("cornell_box".to_owned()))
    );
    assert_eq!(
        parse_scene("EMPTY".to_owned()),
        Err(ConfigError::UnknownScene("EMPTY".to_owned()))
    );
}

#[test]
fn config_builds_its_frame() {
    let f = Config::default().frame();
    assert_eq!(f.width, 400);
    assert_eq!(f.height, 200);
    assert_eq!(f.samples, 1);
    assert_eq!(f.coords.len(), 400 * 200);
}

// ---- frame layout ----------------------------------------------------

#[test]
fn frame_coords_flip_the_vertical_axis() {
    let f = Frame::new(2, 2, 1);
    assert_eq!(f.coords, vec![(0, 1), (1, 1), (0, 0), (1, 0)]);
    let g = Frame::new(3, 2, 4);
    assert_eq!(
        g.coords,
        vec![(0, 1), (1, 1), (2, 1), (0, 0), (1, 0), (2, 0)]
    );
}

#[test]
fn pixel_index_is_row_major() {
    let f = Frame::new(3, 2, 1);
    assert_eq!(f.pixel_index(0, 0), 0);
    assert_eq!(f.pixel_index(2, 0), 2);
    assert_eq!(f.pixel_index(0, 1), 3);
    assert_eq!(f.pixel_index(2, 1), 5);
    // the coordinate stored at a pixel's flat index samples the flipped row
    assert_eq!(f.coords[f.pixel_index(1, 0)], (1, 1));
    assert_eq!(f.coords[f.pixel_index(1, 1)], (1, 0));
}

// ---- integrator policy -----------------------------------------------

#[test]
fn shade_step_decisions() {
    assert_eq!(shade_step(0, ShadeEvent::Miss), ShadeAction::Background);
    assert_eq!(shade_step(1000, ShadeEvent::Miss), ShadeAction::Background);
    assert_eq!(shade_step(0, ShadeEvent::Absorbed), ShadeAction::Zero);
    assert_eq!(shade_step(0, ShadeEvent::Scattered), ShadeAction::Recurse);
    assert_eq!(
        shade_step(MAX_DEPTH - 1, ShadeEvent::Scattered),
        ShadeAction::Recurse
    );
    assert_eq!(shade_step(MAX_DEPTH, ShadeEvent::Scattered), ShadeAction::Zero);
    assert_eq!(
        shade_step(MAX_DEPTH + 1, ShadeEvent::Scattered),
        ShadeAction::Zero
    );
}

#[test]
fn depth_cap_bounds_scattering() {
    // an adversarial scene that scatters every cast: the integrator still
    // evaluates at most MAX_DEPTH + 1 casts
    let mut depth: u32 = 0;
    let mut casts: u32 = 1;
    while shade_step(depth, ShadeEvent::Scattered) == ShadeAction::Recurse {
        depth += 1;
        casts += 1;
        assert!(casts <= MAX_DEPTH + 1);
    }
    assert_eq!(casts, MAX_DEPTH + 1);
}
