use tileedit::ani_sprite::{Animation, AniSprite, FrameRect};
use tileedit::SpriteError;

fn sheet_192x64() -> AniSprite {
    // A 192x64 texture with 64x64 frame cells: three frames in one row.
    AniSprite::new(192, 64, 64, 64).unwrap()
}

#[test]
fn test_new_rejects_non_divisible_texture() {
    assert!(matches!(
        AniSprite::new(190, 64, 64, 64),
        Err(SpriteError::InvalidConfiguration)
    ));
    assert!(matches!(
        AniSprite::new(192, 60, 64, 64),
        Err(SpriteError::InvalidConfiguration)
    ));
}

#[test]
fn test_frame_counts() {
    let s = sheet_192x64();
    assert_eq!(s.num_cols(), 3);
    assert_eq!(s.num_rows(), 1);
    assert_eq!(s.num_frames(), 3);
    assert_eq!(s.frame_width(), 64);
    assert_eq!(s.frame_height(), 64);
}

#[test]
fn test_empty_texture() {
    let s = AniSprite::new(0, 0, 1, 1).unwrap();
    assert_eq!(s.num_frames(), 0);
}

#[test]
fn test_frame_index_mapping() {
    let mut s = sheet_192x64();
    assert_eq!(s.frame_rect(), FrameRect { x: 0, y: 0, w: 64, h: 64 });
    s.set_frame(1);
    assert_eq!(s.frame_rect(), FrameRect { x: 64, y: 0, w: 64, h: 64 });
    s.set_frame(2);
    assert_eq!(s.frame_rect(), FrameRect { x: 128, y: 0, w: 64, h: 64 });
}

#[test]
fn test_frame_index_mapping_second_row() {
    // Two rows of three frames: index 4 sits in row 1, column 1.
    let mut s = AniSprite::new(192, 128, 64, 64).unwrap();
    assert_eq!(s.num_frames(), 6);
    s.set_frame(4);
    assert_eq!(s.frame_rect(), FrameRect { x: 64, y: 64, w: 64, h: 64 });
}

#[test]
fn test_update_applies_new_frame() {
    let mut s = sheet_192x64();
    let a = Animation::new_immediate(0, 2, 1_000, false).unwrap();
    s.animate_fresh(vec![a], false);
    s.update(1_000_000);
    assert_eq!(s.frame_rect(), FrameRect { x: 64, y: 0, w: 64, h: 64 });
    assert_eq!(s.active_index(), 0);
}

#[test]
fn test_update_on_empty_playlist_is_noop() {
    let mut s = sheet_192x64();
    s.update(1_000_000);
    assert_eq!(s.frame_rect(), FrameRect { x: 0, y: 0, w: 64, h: 64 });
    assert!(s.current_animation().is_none());
}

#[test]
fn test_playlist_exhaustion_pins_at_last() {
    let mut s = sheet_192x64();
    let a0 = Animation::new_immediate(0, 1, 1_000, false).unwrap();
    let a1 = Animation::new_immediate(2, 2, 1_000, false).unwrap();
    s.animate_fresh(vec![a0, a1], false);
    assert_eq!(s.active_index(), 0);

    // Animation 0 reaches its terminal frame.
    s.update(1_000_000);
    assert_eq!(s.active_index(), 0);
    assert_eq!(s.frame_rect(), FrameRect { x: 64, y: 0, w: 64, h: 64 });

    // Animation 0 reports finished_with_last: the playlist advances exactly
    // once, and animation 1's starting frame is applied on the same tick.
    s.update(1_000_000);
    assert_eq!(s.active_index(), 1);
    assert_eq!(s.frame_rect(), FrameRect { x: 128, y: 0, w: 64, h: 64 });

    // Animation 1 finishes too; with nothing left the playlist stays pinned.
    s.update(1_000_000);
    assert_eq!(s.active_index(), 1);
    s.update(1_000_000);
    s.update(1_000_000);
    assert_eq!(s.active_index(), 1);
    assert_eq!(s.frame_rect(), FrameRect { x: 128, y: 0, w: 64, h: 64 });
}

#[test]
fn test_looping_playlist_restarts() {
    let mut s = sheet_192x64();
    let a0 = Animation::new_immediate(0, 1, 1_000, false).unwrap();
    s.animate_fresh(vec![a0], true);

    // Finish the single animation's frames.
    s.update(2_000_000);
    assert_eq!(s.frame_rect(), FrameRect { x: 64, y: 0, w: 64, h: 64 });

    // Fully displayed: the playlist wraps around, resetting the animation
    // and applying its starting frame.
    s.update(1_000_000);
    assert_eq!(s.active_index(), 0);
    assert_eq!(s.frame_rect(), FrameRect { x: 0, y: 0, w: 64, h: 64 });

    // And it plays again.
    s.update(1_000_000);
    assert_eq!(s.frame_rect(), FrameRect { x: 64, y: 0, w: 64, h: 64 });
}

#[test]
fn test_animate_fresh_replaces_playlist() {
    let mut s = sheet_192x64();
    let a0 = Animation::new_immediate(0, 2, 1_000, false).unwrap();
    s.animate_fresh(vec![a0], false);
    s.update(1_000_000);

    let a1 = Animation::new_immediate(2, 2, 1_000, false).unwrap();
    s.animate_fresh(vec![a1], false);
    assert_eq!(s.active_index(), 0);
    let cur = s.current_animation().unwrap();
    assert_eq!(cur.from, 2);
    assert_eq!(cur.elapsed_us, 0);
}

#[test]
fn test_pause_and_resume() {
    let mut s = sheet_192x64();
    assert!(!s.pause());
    assert!(!s.resume());

    let a0 = Animation::new_immediate(0, 2, 1_000, false).unwrap();
    s.animate_fresh(vec![a0], false);
    assert!(s.pause());
    s.update(1_000_000);
    // Paused: no frame advanced.
    assert_eq!(s.frame_rect(), FrameRect { x: 0, y: 0, w: 64, h: 64 });
    assert!(s.current_animation().unwrap().paused);

    assert!(s.resume());
    s.update(1_000_000);
    assert_eq!(s.frame_rect(), FrameRect { x: 64, y: 0, w: 64, h: 64 });
}

#[test]
fn test_current_animation() {
    let mut s = sheet_192x64();
    assert!(s.current_animation().is_none());
    let a0 = Animation::new_dormant(1, 2, 1_000, false).unwrap();
    s.animate_fresh(vec![a0], false);
    let cur = s.current_animation().unwrap();
    assert_eq!(cur.from, 1);
    assert_eq!(cur.to, 2);
    assert!(cur.paused);
}
