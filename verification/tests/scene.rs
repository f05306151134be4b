use cheese_adventure::display::Bar;
use cheese_adventure::input::Input;
use cheese_adventure::node::Sprite;
use cheese_adventure::node::Tint;
use cheese_adventure::scene::banner;
use cheese_adventure::scene::push_image;
use cheese_adventure::scene::push_rectangles;
use cheese_adventure::scene::DrawCommand;
use cheese_adventure::scene::Texture;

#[test]
fn an_idle_frame_touches_no_key() {
    let input = Input::idle();
    assert!(!input.a_down && !input.d_down && !input.w_down && !input.s_down);
    assert!(!input.a_released && !input.s_released && !input.x_released && !input.z_released);
    assert!(input.theme_playing);
}

#[test]
fn a_banner_fills_the_width_upside_down() {
    assert_eq!(
        banner(5200, 1100),
        Sprite {
            frame_x: 0,
            frame_y: 0,
            frame_width: 6400,
            frame_height: 1100,
            x: 0,
            y: 5200,
            width: 6400,
            height: 1100,
            flipped: true,
            tint: Tint::White,
        }
    );
}

#[test]
fn push_image_adds_an_image_if_there_is_one() {
    let mut commands = Vec::new();
    push_image(&mut commands, Texture::Cheese, None);
    assert!(commands.is_empty());
    let sprite = banner(3200, 3200);
    push_image(&mut commands, Texture::Title, Some(sprite));
    push_image(&mut commands, Texture::Exit, None);
    push_image(&mut commands, Texture::Back, Some(sprite));
    assert_eq!(
        commands,
        vec![
            DrawCommand::Image { texture: Texture::Title, sprite },
            DrawCommand::Image { texture: Texture::Back, sprite },
        ]
    );
}

#[test]
fn push_rectangles_adds_the_bars_in_order() {
    let first = Bar { x: 100, y: 200, width: 200, height: 100 };
    let second = Bar { x: 300, y: 0, width: 100, height: 200 };
    let mut commands = vec![DrawCommand::Rectangle { bar: second }];
    push_rectangles(&mut commands, &vec![first, second]);
    push_rectangles(&mut commands, &Vec::new());
    assert_eq!(
        commands,
        vec![
            DrawCommand::Rectangle { bar: second },
            DrawCommand::Rectangle { bar: first },
            DrawCommand::Rectangle { bar: second },
        ]
    );
}
