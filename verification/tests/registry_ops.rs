use glam::Vec3;
use render_core::registry::ObjectRegistry;
use render_core::registry::VulkanObject;
use render_core::transform::Transform;
use render_core::vertex::Vertex;

fn triangle() -> Vec<Vertex> {
    vec![
        Vertex::new(Vec3::new(0.0, 1.0, 0.0), Vec3::new(1.0, 0.0, 0.0)),
        Vertex::new(Vec3::new(-1.0, -1.0, 0.0), Vec3::new(0.0, 1.0, 0.0)),
        Vertex::new(Vec3::new(1.0, -1.0, 0.0), Vec3::new(0.0, 0.0, 1.0)),
    ]
}

fn plain_transform(z: f32) -> Transform {
    Transform::new(Vec3::new(0.0, 0.0, z), Vec3::ZERO, Vec3::ONE)
}

#[test]
fn create_then_delete_leaves_id_absent() {
    let mut registry = ObjectRegistry::new();
    registry.insert(7, VulkanObject::new(triangle(), plain_transform(-5.0)));
    assert!(registry.get(7).is_some());
    registry.remove(7);
    assert!(registry.get(7).is_none());
    assert_eq!(registry.len(), 0);
}

#[test]
fn repeated_create_delete_cycles_do_not_accumulate() {
    let mut registry = ObjectRegistry::new();
    for _ in 0..10 {
        registry.insert(3, VulkanObject::new(triangle(), plain_transform(-1.0)));
        registry.remove(3);
    }
    assert_eq!(registry.len(), 0);
    assert!(registry.get(3).is_none());
}

#[test]
fn delete_of_absent_id_is_a_noop() {
    let mut registry = ObjectRegistry::new();
    registry.insert(1, VulkanObject::new(triangle(), plain_transform(-2.0)));
    registry.insert(4, VulkanObject::new(triangle(), plain_transform(-3.0)));
    registry.remove(99);
    assert_eq!(registry.len(), 2);
    assert!(registry.get(1).is_some());
    assert!(registry.get(4).is_some());
    assert!(registry.get(99).is_none());
}

#[test]
fn delete_on_empty_registry_does_not_error() {
    let mut registry = ObjectRegistry::new();
    registry.remove(0);
    assert_eq!(registry.len(), 0);
}

#[test]
fn duplicate_id_replaces_previous_object() {
    let mut registry = ObjectRegistry::new();
    registry.insert(2, VulkanObject::new(triangle(), plain_transform(-1.0)));
    let two_triangles: Vec<Vertex> = [triangle(), triangle()].concat();
    registry.insert(2, VulkanObject::new(two_triangles, plain_transform(-9.0)));
    assert_eq!(registry.len(), 1);
    let object = registry.get(2).unwrap();
    assert_eq!(object.vertex_count(), 6);
    assert_eq!(object.get_transform().get_position(), Vec3::new(0.0, 0.0, -9.0));
}

#[test]
fn entries_are_kept_in_id_order() {
    let mut registry = ObjectRegistry::new();
    registry.insert(5, VulkanObject::new(triangle(), plain_transform(-1.0)));
    registry.insert(3, VulkanObject::new(triangle(), plain_transform(-2.0)));
    registry.insert(9, VulkanObject::new(triangle(), plain_transform(-3.0)));
    registry.insert(4, VulkanObject::new(triangle(), plain_transform(-4.0)));
    let ids: Vec<usize> = (0..registry.len()).map(|i| registry.entry_at(i).id).collect();
    assert_eq!(ids, vec![3, 4, 5, 9]);
}

#[test]
fn get_finds_exactly_the_stored_object() {
    let mut registry = ObjectRegistry::new();
    registry.insert(10, VulkanObject::new(triangle(), plain_transform(-6.0)));
    registry.insert(20, VulkanObject::new(triangle(), plain_transform(-7.0)));
    let object = registry.get(20).unwrap();
    assert_eq!(object.get_transform().get_position(), Vec3::new(0.0, 0.0, -7.0));
    assert_eq!(object.vertex_count(), 3);
    assert!(registry.get(15).is_none());
}
