use gl_renderer_plugin::{AttributeLayout, Command, Context, GLGeometry, GLRendererPlugin, Geometry};

fn layout(name: &str, offset: usize) -> AttributeLayout {
    AttributeLayout { name: name.to_string(), offset }
}

fn triangle(id: u128) -> Geometry {
    Geometry {
        id,
        stride: 24,
        attributes: vec![layout("position", 0), layout("normal", 12)],
        vertices: vec![0.0f32.to_bits(), 1.0f32.to_bits(), 2.0f32.to_bits()],
    }
}

#[test]
fn first_request_reserves_a_buffer_and_uploads_nothing() {
    let mut plugin = GLRendererPlugin::new();
    let geometry = triangle(5);
    assert!(!plugin.has_geometry(&geometry));
    let gl_geometry = plugin.get_geometry(&geometry);
    assert!(plugin.has_geometry(&geometry));
    assert_eq!(gl_geometry.get_geometry().id, 5);
    assert!(plugin.get_context().commands().is_empty());
}

#[test]
fn repeated_request_keeps_buffer_and_offsets() {
    let mut plugin = GLRendererPlugin::new();
    let geometry = triangle(5);
    let first = plugin.get_geometry(&geometry);
    let second = plugin.get_geometry(&geometry);
    let mut context = Context::new();
    let first_buffer = first.get_vertex_buffer(&mut context, false);
    let second_buffer = second.get_vertex_buffer(&mut context, false);
    assert_eq!(first_buffer, second_buffer);
    assert_eq!(first_buffer.handle, 0);
    assert_eq!(first.get_offset(&"position".to_string()), Some(0));
    assert_eq!(second.get_offset(&"position".to_string()), Some(0));
    assert_eq!(first.get_offset(&"normal".to_string()), Some(12));
    assert_eq!(second.get_offset(&"normal".to_string()), Some(12));
}

#[test]
fn each_identity_gets_its_own_buffer() {
    let mut plugin = GLRendererPlugin::new();
    let first = plugin.get_geometry(&triangle(1));
    let second = plugin.get_geometry(&triangle(2));
    let again = plugin.get_geometry(&triangle(1));
    let mut context = Context::new();
    assert_eq!(first.get_vertex_buffer(&mut context, false).handle, 0);
    assert_eq!(second.get_vertex_buffer(&mut context, false).handle, 1);
    assert_eq!(again.get_vertex_buffer(&mut context, false).handle, 0);
}

#[test]
fn cached_geometry_wins_over_a_changed_descriptor() {
    let mut plugin = GLRendererPlugin::new();
    plugin.get_geometry(&triangle(1));
    let mut changed = triangle(1);
    changed.stride = 48;
    changed.attributes = vec![layout("position", 4)];
    let cached = plugin.get_geometry(&changed);
    assert_eq!(cached.get_geometry().stride, 24);
    assert_eq!(cached.get_offset(&"position".to_string()), Some(0));
}

#[test]
fn offset_of_an_absent_attribute_is_none() {
    let mut context = Context::new();
    let gl_geometry = GLGeometry::new(&mut context, triangle(1));
    assert_eq!(gl_geometry.get_offset(&"uv".to_string()), None);
    assert_eq!(gl_geometry.get_offset(&"".to_string()), None);
}

#[test]
fn offset_of_a_repeated_attribute_is_that_of_the_last_entry() {
    let mut context = Context::new();
    let mut geometry = triangle(1);
    geometry.attributes = vec![layout("position", 0), layout("uv", 12), layout("position", 20)];
    let gl_geometry = GLGeometry::new(&mut context, geometry);
    assert_eq!(gl_geometry.get_offset(&"position".to_string()), Some(20));
    assert_eq!(gl_geometry.get_offset(&"uv".to_string()), Some(12));
}

#[test]
fn geometry_without_attributes_has_no_offsets() {
    let mut context = Context::new();
    let mut geometry = triangle(1);
    geometry.attributes = Vec::new();
    let gl_geometry = GLGeometry::new(&mut context, geometry);
    assert_eq!(gl_geometry.get_offset(&"position".to_string()), None);
}

#[test]
fn vertex_data_is_uploaded_on_first_use_only() {
    let mut context = Context::new();
    let gl_geometry = GLGeometry::new(&mut context, triangle(1));
    let buffer = gl_geometry.get_vertex_buffer(&mut context, false);
    assert_eq!(buffer.handle, 0);
    assert_eq!(
        context.commands(),
        &vec![Command::BufferData {
            buffer: 0,
            data: vec![0.0f32.to_bits(), 1.0f32.to_bits(), 2.0f32.to_bits()],
        }]
    );
    gl_geometry.get_vertex_buffer(&mut context, false);
    assert_eq!(context.commands().len(), 1);
}

#[test]
fn forced_use_uploads_vertex_data_again() {
    let mut context = Context::new();
    let gl_geometry = GLGeometry::new(&mut context, triangle(1));
    gl_geometry.get_vertex_buffer(&mut context, true);
    gl_geometry.get_vertex_buffer(&mut context, true);
    gl_geometry.get_vertex_buffer(&mut context, false);
    assert_eq!(context.commands().len(), 2);
    assert_eq!(context.commands()[0], context.commands()[1]);
}

#[test]
fn buffer_of_another_context_is_not_uploaded() {
    let mut owner = Context::new();
    let gl_geometry = GLGeometry::new(&mut owner, triangle(1));
    let mut stranger = Context::new();
    let buffer = gl_geometry.get_vertex_buffer(&mut stranger, true);
    assert_eq!(buffer.handle, 0);
    assert!(stranger.commands().is_empty());
}

#[test]
fn cloned_geometry_shares_the_buffer_handle() {
    let mut context = Context::new();
    let gl_geometry = GLGeometry::new(&mut context, triangle(1));
    let copy = gl_geometry.clone();
    assert_eq!(
        copy.get_vertex_buffer(&mut context, false),
        gl_geometry.get_vertex_buffer(&mut context, false)
    );
    assert_eq!(copy.get_geometry().vertices, gl_geometry.get_geometry().vertices);
    assert_eq!(context.commands().len(), 1);
}

#[test]
fn find_offset_reads_a_bare_table() {
    let table = vec![layout("a", 1), layout("b", 2), layout("a", 3)];
    assert_eq!(gl_renderer_plugin::geometry::find_offset(&table, &"a".to_string()), Some(3));
    assert_eq!(gl_renderer_plugin::geometry::find_offset(&table, &"b".to_string()), Some(2));
    assert_eq!(gl_renderer_plugin::geometry::find_offset(&table, &"c".to_string()), None);
    assert_eq!(gl_renderer_plugin::geometry::find_offset(&Vec::new(), &"a".to_string()), None);
}

#[test]
fn cloned_layout_and_descriptor_keep_every_entry() {
    let table = vec![layout("a", 1), layout("b", 2)];
    let copy = gl_renderer_plugin::geometry::clone_layout(&table);
    assert_eq!(copy.len(), 2);
    assert_eq!((copy[0].name.as_str(), copy[0].offset), ("a", 1));
    assert_eq!((copy[1].name.as_str(), copy[1].offset), ("b", 2));
    let descriptor = triangle(8).clone();
    assert_eq!(descriptor.id, 8);
    assert_eq!(descriptor.stride, 24);
    assert_eq!(descriptor.attributes.len(), 2);
    assert_eq!(descriptor.attributes[1].name, "normal");
    assert_eq!(descriptor.vertices, triangle(8).vertices);
}

#[test]
fn other_requests_leave_a_cached_geometry_alone() {
    let mut plugin = GLRendererPlugin::new();
    plugin.get_geometry(&triangle(1));
    plugin.get_geometry(&triangle(2));
    let mut changed = triangle(1);
    changed.vertices = Vec::new();
    let again = plugin.get_geometry(&changed);
    assert_eq!(again.get_geometry().vertices.len(), 3);
    assert!(plugin.has_geometry(&triangle(2)));
    assert!(!plugin.has_geometry(&triangle(3)));
}
