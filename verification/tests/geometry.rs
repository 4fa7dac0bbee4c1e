use lumen2d::geometry::GeometryPrimitive;
use lumen2d::instance::SpriteInstance;

fn instance(
    centre: (i64, i64),
    dims: (i64, i64),
    facing: (i64, i64),
    sprite_pos: (i64, i64),
    sprite_dims: (i64, i64),
) -> SpriteInstance {
    SpriteInstance {
        centre_x: centre.0,
        centre_y: centre.1,
        dim_x: dims.0,
        dim_y: dims.1,
        facing_x: facing.0,
        facing_y: facing.1,
        sprite_left: sprite_pos.0,
        sprite_top: sprite_pos.1,
        sprite_w: sprite_dims.0,
        sprite_h: sprite_dims.1,
    }
}

#[test]
fn unit_quad_corners_and_indices() {
    let quad = GeometryPrimitive::unit_quad();
    assert_eq!(quad.indices, vec![0u16, 1, 2, 2, 3, 0]);
    let xs: Vec<(u8, u8)> = quad.corners.iter().map(|c| (c.x, c.y)).collect();
    assert_eq!(xs, vec![(0, 0), (0, 1), (1, 1), (1, 0)]);
}

#[test]
fn quad_corners_single_instance() {
    // an unrotated instance: facing (0,-1) is the quad's own "up"
    let s = instance((100, 100), (20, 40), (0, -1), (0, 0), (14, 26));
    let corners: Vec<(i64, i64)> = (0..4usize).map(|i| s.corner_px(i)).collect();
    assert_eq!(corners, vec![(90, 80), (90, 120), (110, 120), (110, 80)]);
}

#[test]
fn doubled_corners_carry_half_pixels() {
    // odd dimensions put corners on half pixels; the doubled form is exact
    let s = instance((10, 10), (3, 5), (0, -1), (0, 0), (1, 1));
    assert_eq!(s.corner_x2(0), (17, 15));
    assert_eq!(s.corner_x2(1), (17, 25));
    assert_eq!(s.corner_x2(2), (23, 25));
    assert_eq!(s.corner_x2(3), (23, 15));
    // even dimensions: doubled form agrees with the whole-pixel corners
    let e = instance((100, 100), (20, 40), (0, -1), (0, 0), (14, 26));
    for i in 0..4usize {
        let (x2, y2) = e.corner_x2(i);
        let (x, y) = e.corner_px(i);
        assert_eq!((2 * x, 2 * y), (x2, y2));
    }
}

#[test]
fn atlas_sub_rectangle_texels() {
    let s = instance((0, 0), (64, 64), (0, -1), (32, 0), (64, 64));
    let texels: Vec<(i64, i64)> = (0..4usize).map(|i| s.texel(i)).collect();
    assert_eq!(texels, vec![(32, 0), (32, 64), (96, 64), (96, 0)]);
}

#[test]
fn atlas_uv_pixel_rect_independent_of_atlas_size() {
    let s = instance((0, 0), (64, 64), (0, -1), (32, 0), (64, 64));
    for i in 0..4usize {
        let small = s.atlas_uv(i, 128, 128);
        let large = s.atlas_uv(i, 512, 256);
        // the normalized coordinate scales back to the same pixel rectangle
        // whatever the atlas's total size is
        assert_eq!((small.u_num, small.v_num), s.texel(i));
        assert_eq!((large.u_num, large.v_num), s.texel(i));
        assert_eq!((small.u_den, small.v_den), (128, 128));
        assert_eq!((large.u_den, large.v_den), (512, 256));
    }
}

#[test]
fn zeroed_instance_is_all_zero() {
    let z = SpriteInstance::zeroed();
    assert_eq!(z, instance((0, 0), (0, 0), (0, 0), (0, 0), (0, 0)));
}
