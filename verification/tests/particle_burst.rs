use snake_core::particles::{ParticleSystem, Rgba, Vec2};

fn palette() -> Vec<Rgba> {
    vec![
        Rgba { r: 0, g: 0, b: 0, a: 255 },
        Rgba { r: 0, g: 0, b: 255, a: 255 },
        Rgba { r: 255, g: 255, b: 255, a: 255 },
    ]
}

#[test]
fn pool_is_created_with_count_and_palette_colors() {
    let colors = palette();
    let pool = ParticleSystem::create_radial(
        500,
        colors.clone(),
        25,
        Vec2 { x: 320_000, y: 240_000 },
        40,
        250,
    );
    assert_eq!(pool.particles.len(), 25);
    for p in &pool.particles {
        assert_eq!(p.position, Vec2 { x: 320_000, y: 240_000 });
        assert_eq!(p.lifetime_ms, 500);
        assert_eq!(p.scale_milli, 250);
        assert!(p.velocity.x >= -40 && p.velocity.x <= 40);
        assert!(p.velocity.y >= -40 && p.velocity.y <= 40);
        assert!(colors.contains(&p.color));
    }
}

#[test]
fn single_color_palette_is_always_chosen() {
    let colors = vec![Rgba { r: 7, g: 8, b: 9, a: 10 }];
    let pool = ParticleSystem::create_radial(500, colors, 10, Vec2 { x: 0, y: 0 }, 40, 250);
    for p in &pool.particles {
        assert_eq!(p.color, Rgba { r: 7, g: 8, b: 9, a: 10 });
    }
}

#[test]
fn reset_moves_every_particle_to_the_origin_with_full_lifetime() {
    let mut pool =
        ParticleSystem::create_radial(500, palette(), 25, Vec2 { x: 0, y: 0 }, 40, 250);
    pool.step(200);
    let velocities: Vec<Vec2> = pool.particles.iter().map(|p| p.velocity).collect();
    pool.reset(750, Vec2 { x: 210_000, y: 210_000 });
    for (i, p) in pool.particles.iter().enumerate() {
        assert_eq!(p.position, Vec2 { x: 210_000, y: 210_000 });
        assert_eq!(p.lifetime_ms, 750);
        assert_eq!(p.velocity, velocities[i]);
    }
}

#[test]
fn step_advances_position_by_velocity_times_time() {
    let mut pool =
        ParticleSystem::create_radial(500, palette(), 8, Vec2 { x: 100_000, y: 100_000 }, 40, 250);
    let before: Vec<(i64, i64, i64, i64)> =
        pool.particles.iter().map(|p| (p.position.x, p.position.y, p.velocity.x, p.velocity.y)).collect();
    pool.step(150);
    for (i, p) in pool.particles.iter().enumerate() {
        let (px, py, vx, vy) = before[i];
        assert_eq!(p.position.x, px + vx * 150);
        assert_eq!(p.position.y, py + vy * 150);
        assert_eq!(p.lifetime_ms, 350);
    }
}

#[test]
fn burst_no_longer_renders_once_its_lifetime_has_passed() {
    let mut pool =
        ParticleSystem::create_radial(500, palette(), 25, Vec2 { x: 0, y: 0 }, 40, 250);
    pool.reset(500, Vec2 { x: 50_000, y: 50_000 });
    for p in &pool.particles {
        assert!(p.is_visible());
    }
    pool.step(150);
    pool.step(150);
    pool.step(150);
    for p in &pool.particles {
        assert!(p.is_visible());
    }
    pool.step(150);
    // 600 ms of stepping against a 500 ms lifetime
    for p in &pool.particles {
        assert!(!p.is_visible());
    }
    pool.step(150);
    for p in &pool.particles {
        assert!(!p.is_visible());
    }
}

#[test]
fn exact_lifetime_boundary_suppresses_drawing() {
    let mut pool = ParticleSystem::create_radial(450, palette(), 5, Vec2 { x: 0, y: 0 }, 0, 250);
    pool.step(150);
    pool.step(150);
    pool.step(150);
    for p in &pool.particles {
        assert_eq!(p.lifetime_ms, 0);
        assert!(!p.is_visible());
    }
}
