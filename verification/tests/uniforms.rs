use gl_renderer_plugin::{Command, Context, GLRendererPlugin, Program};

fn names(list: &[&str]) -> Vec<String> {
    list.iter().map(|name| name.to_string()).collect()
}

fn matrix4(seed: f32) -> [u32; 16] {
    let mut words = [0u32; 16];
    for (i, word) in words.iter_mut().enumerate() {
        *word = (seed + i as f32).to_bits();
    }
    words
}

fn matrix3(seed: f32) -> [u32; 9] {
    let mut words = [0u32; 9];
    for (i, word) in words.iter_mut().enumerate() {
        *word = (seed + i as f32).to_bits();
    }
    words
}

fn upload(program: usize, name: &str, value: &[u32]) -> Command {
    Command::Uniform { program, name: name.to_string(), value: value.to_vec() }
}

fn linked_plugin(uniforms: &[&str]) -> (GLRendererPlugin, Program) {
    let mut plugin = GLRendererPlugin::new();
    let program = plugin.get_context_mut().new_program(&"v".to_string(), &"f".to_string());
    plugin.get_context_mut().link_program(&program, &names(uniforms), &Vec::new());
    plugin.get_context_mut().take_commands();
    (plugin, program)
}

#[test]
fn only_declared_uniforms_are_uploaded() {
    let (mut plugin, program) = linked_plugin(&["projection", "view"]);
    let (p, mv, v, n) = (matrix4(1.0), matrix4(2.0), matrix4(3.0), matrix3(4.0));
    plugin.bind_uniforms(&program, &p, &mv, &v, &n, false);
    assert_eq!(
        plugin.get_context().commands(),
        &vec![upload(0, "projection", &p), upload(0, "view", &v)]
    );
}

#[test]
fn only_declared_uniforms_are_uploaded_when_forced() {
    let (mut plugin, program) = linked_plugin(&["projection", "view"]);
    let (p, mv, v, n) = (matrix4(1.0), matrix4(2.0), matrix4(3.0), matrix3(4.0));
    plugin.bind_uniforms(&program, &p, &mv, &v, &n, true);
    assert_eq!(
        plugin.get_context().commands(),
        &vec![upload(0, "projection", &p), upload(0, "view", &v)]
    );
}

#[test]
fn all_four_uniforms_are_uploaded_in_order() {
    let (mut plugin, program) = linked_plugin(&["normal", "view", "model_view", "projection"]);
    let (p, mv, v, n) = (matrix4(1.0), matrix4(2.0), matrix4(3.0), matrix3(4.0));
    plugin.bind_uniforms(&program, &p, &mv, &v, &n, false);
    assert_eq!(
        plugin.get_context().commands(),
        &vec![
            upload(0, "projection", &p),
            upload(0, "model_view", &mv),
            upload(0, "view", &v),
            upload(0, "normal", &n),
        ]
    );
    match &plugin.get_context().commands()[3] {
        Command::Uniform { value, .. } => assert_eq!(value.len(), 9),
        other => panic!("unexpected command {:?}", other),
    }
}

#[test]
fn uniforms_of_other_names_are_never_touched() {
    let (mut plugin, program) = linked_plugin(&["time", "color"]);
    let (p, mv, v, n) = (matrix4(1.0), matrix4(2.0), matrix4(3.0), matrix3(4.0));
    plugin.bind_uniforms(&program, &p, &mv, &v, &n, true);
    assert!(plugin.get_context().commands().is_empty());
}

#[test]
fn unchanged_uniforms_are_not_uploaded_again() {
    let (mut plugin, program) = linked_plugin(&["projection", "model_view", "view", "normal"]);
    let (p, mv, v, n) = (matrix4(1.0), matrix4(2.0), matrix4(3.0), matrix3(4.0));
    plugin.bind_uniforms(&program, &p, &mv, &v, &n, false);
    assert_eq!(plugin.get_context().commands().len(), 4);
    plugin.bind_uniforms(&program, &p, &mv, &v, &n, false);
    assert_eq!(plugin.get_context().commands().len(), 4);
}

#[test]
fn forced_uniforms_are_always_uploaded_again() {
    let (mut plugin, program) = linked_plugin(&["projection", "model_view", "view", "normal"]);
    let (p, mv, v, n) = (matrix4(1.0), matrix4(2.0), matrix4(3.0), matrix3(4.0));
    plugin.bind_uniforms(&program, &p, &mv, &v, &n, true);
    plugin.bind_uniforms(&program, &p, &mv, &v, &n, true);
    let commands = plugin.get_context().commands();
    assert_eq!(commands.len(), 8);
    assert_eq!(commands[0..4], commands[4..8]);
}

#[test]
fn forced_upload_follows_an_unforced_one() {
    let (mut plugin, program) = linked_plugin(&["view"]);
    let (p, mv, v, n) = (matrix4(1.0), matrix4(2.0), matrix4(3.0), matrix3(4.0));
    plugin.bind_uniforms(&program, &p, &mv, &v, &n, false);
    plugin.bind_uniforms(&program, &p, &mv, &v, &n, true);
    plugin.bind_uniforms(&program, &p, &mv, &v, &n, false);
    assert_eq!(
        plugin.get_context().commands(),
        &vec![upload(0, "view", &v), upload(0, "view", &v)]
    );
}

#[test]
fn only_the_changed_uniform_is_uploaded_again() {
    let (mut plugin, program) = linked_plugin(&["projection", "model_view", "view", "normal"]);
    let (p, mv, v, n) = (matrix4(1.0), matrix4(2.0), matrix4(3.0), matrix3(4.0));
    plugin.bind_uniforms(&program, &p, &mv, &v, &n, false);
    plugin.get_context_mut().take_commands();
    let moved = matrix4(9.0);
    plugin.bind_uniforms(&program, &p, &moved, &v, &n, false);
    assert_eq!(plugin.get_context().commands(), &vec![upload(0, "model_view", &moved)]);
    plugin.get_context_mut().take_commands();
    plugin.bind_uniforms(&program, &p, &mv, &v, &n, false);
    assert_eq!(plugin.get_context().commands(), &vec![upload(0, "model_view", &mv)]);
}

#[test]
fn values_are_compared_by_bit_pattern() {
    let (mut plugin, program) = linked_plugin(&["projection"]);
    let (mv, v, n) = (matrix4(2.0), matrix4(3.0), matrix3(4.0));
    let mut p = matrix4(1.0);
    p[0] = 0.0f32.to_bits();
    plugin.bind_uniforms(&program, &p, &mv, &v, &n, false);
    p[0] = (-0.0f32).to_bits();
    plugin.bind_uniforms(&program, &p, &mv, &v, &n, false);
    assert_eq!(plugin.get_context().commands().len(), 2);
}

#[test]
fn dirty_tracking_is_kept_per_program() {
    let mut plugin = GLRendererPlugin::new();
    let first = plugin.get_context_mut().new_program(&"v".to_string(), &"f".to_string());
    let second = plugin.get_context_mut().new_program(&"v".to_string(), &"f".to_string());
    plugin.get_context_mut().link_program(&first, &names(&["view"]), &Vec::new());
    plugin.get_context_mut().link_program(&second, &names(&["view"]), &Vec::new());
    plugin.get_context_mut().take_commands();
    let (p, mv, v, n) = (matrix4(1.0), matrix4(2.0), matrix4(3.0), matrix3(4.0));
    plugin.bind_uniforms(&first, &p, &mv, &v, &n, false);
    plugin.bind_uniforms(&second, &p, &mv, &v, &n, false);
    plugin.bind_uniforms(&first, &p, &mv, &v, &n, false);
    assert_eq!(
        plugin.get_context().commands(),
        &vec![upload(0, "view", &v), upload(1, "view", &v)]
    );
}

#[test]
fn program_that_was_not_linked_declares_nothing() {
    let mut plugin = GLRendererPlugin::new();
    let program = plugin.get_context_mut().new_program(&"v".to_string(), &"f".to_string());
    plugin.get_context_mut().take_commands();
    assert!(!plugin.get_context().has_uniform(&program, "projection"));
    let (p, mv, v, n) = (matrix4(1.0), matrix4(2.0), matrix4(3.0), matrix3(4.0));
    plugin.bind_uniforms(&program, &p, &mv, &v, &n, true);
    assert!(plugin.get_context().commands().is_empty());
}

#[test]
fn unknown_program_declares_nothing() {
    let mut plugin = GLRendererPlugin::new();
    let stranger = Program { handle: 12 };
    assert!(!plugin.get_context().has_program(&stranger));
    assert!(!plugin.get_context().has_uniform(&stranger, "projection"));
    plugin.get_context_mut().link_program(&stranger, &names(&["projection"]), &Vec::new());
    assert!(!plugin.get_context().has_uniform(&stranger, "projection"));
    let (p, mv, v, n) = (matrix4(1.0), matrix4(2.0), matrix4(3.0), matrix3(4.0));
    plugin.bind_uniforms(&stranger, &p, &mv, &v, &n, true);
    assert!(plugin.get_context().commands().is_empty());
}

#[test]
fn relinking_forgets_what_was_uploaded() {
    let (mut plugin, program) = linked_plugin(&["view"]);
    let (p, mv, v, n) = (matrix4(1.0), matrix4(2.0), matrix4(3.0), matrix3(4.0));
    plugin.bind_uniforms(&program, &p, &mv, &v, &n, false);
    plugin.get_context_mut().link_program(&program, &names(&["view", "normal"]), &Vec::new());
    plugin.get_context_mut().take_commands();
    plugin.bind_uniforms(&program, &p, &mv, &v, &n, false);
    assert_eq!(
        plugin.get_context().commands(),
        &vec![upload(0, "view", &v), upload(0, "normal", &n)]
    );
}

#[test]
fn set_uniform_skips_an_undeclared_name() {
    let mut context = Context::new();
    let program = context.new_program(&"v".to_string(), &"f".to_string());
    context.link_program(&program, &names(&["view"]), &Vec::new());
    context.take_commands();
    assert!(context.has_uniform(&program, "view"));
    assert!(!context.has_uniform(&program, "vie"));
    assert!(!context.has_uniform(&program, "views"));
    context.set_uniform(&program, "views", &vec![1, 2, 3], true);
    assert!(context.commands().is_empty());
    context.set_uniform(&program, "view", &vec![1, 2, 3], false);
    context.set_uniform(&program, "view", &vec![1, 2, 3], false);
    context.set_uniform(&program, "view", &vec![1, 2], false);
    assert_eq!(
        context.commands(),
        &vec![upload(0, "view", &[1, 2, 3]), upload(0, "view", &[1, 2])]
    );
}

#[test]
fn bound_material_program_receives_uniforms() {
    let mut plugin = GLRendererPlugin::new();
    let descriptor = gl_renderer_plugin::Material {
        id: 1,
        shader: Some(gl_renderer_plugin::Shader {
            vertex: "v".to_string(),
            fragment: "f".to_string(),
        }),
        cull_face: gl_renderer_plugin::CullFace::Back,
        blending: gl_renderer_plugin::Blending::Normal,
        wireframe: false,
        wireframe_line_width: 1.0f32.to_bits(),
    };
    let gl_material = plugin.get_material(&descriptor);
    let program = *gl_material.get_program();
    plugin.get_context_mut().link_program(&program, &names(&["model_view"]), &Vec::new());
    plugin.get_context_mut().take_commands();
    let (p, mv, v, n) = (matrix4(1.0), matrix4(2.0), matrix4(3.0), matrix3(4.0));
    plugin.bind_uniforms(&program, &p, &mv, &v, &n, false);
    let again = plugin.get_material(&descriptor);
    plugin.bind_uniforms(again.get_program(), &p, &mv, &v, &n, false);
    assert_eq!(plugin.get_context().commands(), &vec![upload(0, "model_view", &mv)]);
}
