use gl_renderer_plugin::identity::{KIND_MASK, RANDOM_KIND};
use gl_renderer_plugin::{
    Blending, Camera, CameraManager, Command, Context, CullFace, GLRendererPlugin, Pipeline,
    PluginKind, Rgba, Scene, SceneRenderer, Viewport, ONE_BITS, ZERO_BITS,
};

fn rgba(red: f32, green: f32, blue: f32, alpha: f32) -> Rgba {
    Rgba {
        red: red.to_bits(),
        green: green.to_bits(),
        blue: blue.to_bits(),
        alpha: alpha.to_bits(),
    }
}

fn manager(background: Option<Rgba>) -> Option<CameraManager> {
    Some(CameraManager { active_camera: background.map(|background| Camera { background }) })
}

fn plugin_for(scene: Scene) -> GLRendererPlugin {
    let mut plugin = GLRendererPlugin::new();
    plugin.set_scene_renderer(Some(SceneRenderer { scene }));
    plugin
}

fn clear_all() -> Command {
    Command::Clear { color: true, depth: true, stencil: true }
}

#[test]
fn frame_is_cleared_to_the_background_of_the_3d_camera() {
    let background = rgba(0.25, 0.5, 0.75, 1.0);
    let mut plugin =
        plugin_for(Scene { camera3d_manager: manager(Some(background)), camera2d_manager: None });
    plugin.before_render();
    assert_eq!(
        plugin.get_context().commands(),
        &vec![Command::ClearColor(background), clear_all()]
    );
    let color = plugin.get_context().pipeline().clear_color;
    assert_eq!(f32::from_bits(color.red), 0.25);
    assert_eq!(f32::from_bits(color.green), 0.5);
    assert_eq!(f32::from_bits(color.blue), 0.75);
    assert_eq!(f32::from_bits(color.alpha), 1.0);
}

#[test]
fn frame_is_cleared_to_opaque_black_without_an_active_camera() {
    let mut plugin = plugin_for(Scene { camera3d_manager: None, camera2d_manager: None });
    plugin.before_render();
    assert_eq!(
        plugin.get_context().commands(),
        &vec![Command::ClearColor(rgba(0.0, 0.0, 0.0, 1.0)), clear_all()]
    );
}

#[test]
fn managers_without_an_active_camera_give_opaque_black() {
    let mut plugin =
        plugin_for(Scene { camera3d_manager: manager(None), camera2d_manager: manager(None) });
    plugin.before_render();
    assert_eq!(plugin.get_context().pipeline().clear_color, rgba(0.0, 0.0, 0.0, 1.0));
    assert_eq!(plugin.get_context().commands().len(), 2);
}

#[test]
fn frame_falls_back_to_the_2d_camera() {
    let background = rgba(0.1, 0.2, 0.3, 0.4);
    let mut plugin =
        plugin_for(Scene { camera3d_manager: None, camera2d_manager: manager(Some(background)) });
    plugin.before_render();
    assert_eq!(
        plugin.get_context().commands(),
        &vec![Command::ClearColor(background), clear_all()]
    );
}

#[test]
fn inactive_3d_manager_falls_back_to_the_2d_camera() {
    let background = rgba(0.1, 0.2, 0.3, 0.4);
    let scene =
        Scene { camera3d_manager: manager(None), camera2d_manager: manager(Some(background)) };
    assert_eq!(scene.governing_camera(), Some(Camera { background }));
    assert_eq!(scene.background(), background);
}

#[test]
fn the_3d_camera_takes_precedence_over_the_2d_camera() {
    let three = rgba(1.0, 0.0, 0.0, 1.0);
    let two = rgba(0.0, 1.0, 0.0, 1.0);
    let mut plugin = plugin_for(Scene {
        camera3d_manager: manager(Some(three)),
        camera2d_manager: manager(Some(two)),
    });
    plugin.before_render();
    assert_eq!(plugin.get_context().commands()[0], Command::ClearColor(three));
}

#[test]
fn every_frame_clears_again() {
    let mut plugin = plugin_for(Scene { camera3d_manager: None, camera2d_manager: None });
    plugin.before_render();
    plugin.after_render();
    plugin.before_render();
    assert_eq!(plugin.get_context().commands().len(), 4);
    assert_eq!(plugin.get_context().commands()[1], clear_all());
    assert_eq!(plugin.get_context().commands()[3], clear_all());
}

#[test]
fn camera_change_between_frames_is_followed() {
    let first = rgba(0.5, 0.5, 0.5, 1.0);
    let mut plugin =
        plugin_for(Scene { camera3d_manager: manager(Some(first)), camera2d_manager: None });
    plugin.before_render();
    plugin.set_scene_renderer(Some(SceneRenderer {
        scene: Scene { camera3d_manager: manager(None), camera2d_manager: None },
    }));
    plugin.before_render();
    assert_eq!(plugin.get_context().commands()[0], Command::ClearColor(first));
    assert_eq!(plugin.get_context().commands()[2], Command::ClearColor(Rgba::opaque_black()));
}

#[test]
fn opaque_black_is_zero_zero_zero_one() {
    let black = Rgba::opaque_black();
    assert_eq!(black, rgba(0.0, 0.0, 0.0, 1.0));
    assert_eq!(ZERO_BITS, 0.0f32.to_bits());
    assert_eq!(ONE_BITS, 1.0f32.to_bits());
}

#[test]
fn new_plugin_has_nothing_cached_or_recorded() {
    let plugin = GLRendererPlugin::new();
    assert!(plugin.get_context().commands().is_empty());
    assert!(!plugin.has_material(0));
    assert_eq!(plugin.get_scene_renderer(), None);
    assert_eq!(plugin.get_context().pipeline(), Pipeline::initial());
}

#[test]
fn initial_pipeline_has_the_documented_defaults() {
    let pipeline = Pipeline::initial();
    assert_eq!(pipeline.clear_color, rgba(0.0, 0.0, 0.0, 1.0));
    assert_eq!(pipeline.cull_face, CullFace::Back);
    assert_eq!(pipeline.blending, Blending::Normal);
    assert_eq!(f32::from_bits(pipeline.line_width), 1.0);
    assert_eq!(pipeline.viewport, Viewport { x: 0, y: 0, width: 0, height: 0 });
}

#[test]
fn plugin_identity_is_a_random_uuid() {
    let plugin = GLRendererPlugin::new();
    let id = plugin.get_uuid();
    assert_eq!(id & KIND_MASK, RANDOM_KIND);
    let parsed = uuid::Uuid::from_u128(id);
    assert_eq!(parsed.get_version_num(), 4);
    assert_eq!(parsed.get_variant(), uuid::Variant::RFC4122);
    assert_eq!(plugin.get_uuid(), id);
}

#[test]
fn plugin_identities_differ() {
    let first = GLRendererPlugin::new();
    let second = GLRendererPlugin::new();
    assert_ne!(first.get_uuid(), second.get_uuid());
}

#[test]
fn plugin_runs_first_and_is_filed_as_gl_renderer() {
    let plugin = GLRendererPlugin::new();
    assert_eq!(plugin.get_order(), 0);
    assert_eq!(plugin.get_id(), PluginKind::GLRenderer);
}

#[test]
fn scene_renderer_is_kept_as_set() {
    let mut plugin = GLRendererPlugin::new();
    let renderer = SceneRenderer {
        scene: Scene { camera3d_manager: manager(None), camera2d_manager: None },
    };
    plugin.set_scene_renderer(Some(renderer));
    assert_eq!(plugin.get_scene_renderer(), Some(renderer));
    plugin.set_scene_renderer(None);
    assert_eq!(plugin.get_scene_renderer(), None);
}

#[test]
fn init_and_clear_restore_the_initial_pipeline() {
    let mut plugin = GLRendererPlugin::new();
    plugin.get_context_mut().set_cull_face(CullFace::Disabled);
    plugin.get_context_mut().set_blending(Blending::Subtractive);
    plugin.get_context_mut().set_viewport(0, 0, 640, 480);
    plugin.get_context_mut().take_commands();
    plugin.init();
    assert_eq!(plugin.get_context().pipeline(), Pipeline::initial());
    plugin.get_context_mut().set_clear_color(rgba(1.0, 1.0, 1.0, 1.0));
    plugin.clear();
    assert_eq!(plugin.get_context().pipeline(), Pipeline::initial());
    assert_eq!(
        plugin.get_context().commands(),
        &vec![Command::Init, Command::ClearColor(rgba(1.0, 1.0, 1.0, 1.0)), Command::Reset]
    );
}

#[test]
fn resize_sets_the_viewport() {
    let mut plugin = GLRendererPlugin::new();
    plugin.get_context_mut().set_viewport(0, 0, 800, 600);
    let viewport = Viewport { x: 0, y: 0, width: 800, height: 600 };
    assert_eq!(plugin.get_context().pipeline().viewport, viewport);
    assert_eq!(plugin.get_context().commands(), &vec![Command::Viewport(viewport)]);
}

#[test]
fn after_render_records_nothing() {
    let mut plugin = GLRendererPlugin::new();
    plugin.init();
    plugin.after_render();
    assert_eq!(plugin.get_context().commands(), &vec![Command::Init]);
}

#[test]
fn taking_the_commands_empties_the_record() {
    let mut context = Context::new();
    context.set_cull_face(CullFace::Front);
    context.clear(true, false, true);
    let taken = context.take_commands();
    assert_eq!(
        taken,
        vec![
            Command::CullFace(CullFace::Front),
            Command::Clear { color: true, depth: false, stencil: true },
        ]
    );
    assert!(context.commands().is_empty());
    assert_eq!(context.pipeline().cull_face, CullFace::Front);
    assert!(context.take_commands().is_empty());
}

#[test]
fn words_of_copies_an_array() {
    assert_eq!(gl_renderer_plugin::values::words_of(&[7u32, 8, 9]), vec![7, 8, 9]);
    assert_eq!(gl_renderer_plugin::values::words_of(&[0u32; 0]), Vec::<u32>::new());
}
