use gldemo::buffers::{AttribPointer, VertexArray, VertexBuffer};

#[test]
fn new_buffer_is_empty() {
    let buffer = VertexBuffer::new(3);
    assert_eq!(buffer.id(), 3);
    assert_eq!(buffer.num_vertices(), 0);
    assert_eq!(buffer.draw_count(), Some(0));
}

#[test]
fn static_data_counts_whole_vertices() {
    let buffer = VertexBuffer::new(3).set_static_data(288, 8);
    assert_eq!(buffer.num_vertices(), 36);
    assert_eq!(buffer.draw_count(), Some(36));
    let buffer = buffer.set_static_data(17, 8);
    assert_eq!(buffer.num_vertices(), 2);
    assert_eq!(buffer.id(), 3);
}

#[test]
fn draw_count_refuses_what_an_i32_cannot_hold() {
    let buffer = VertexBuffer::new(1).set_static_data(usize::MAX, 1);
    assert_eq!(buffer.draw_count(), None);
    let buffer = VertexBuffer::new(1).set_static_data(i32::MAX as usize, 1);
    assert_eq!(buffer.draw_count(), Some(i32::MAX));
}

#[test]
fn data_size_is_four_bytes_a_component() {
    assert_eq!(VertexBuffer::data_size(288), Some(1152));
    assert_eq!(VertexBuffer::data_size(0), Some(0));
    assert_eq!(VertexBuffer::data_size(usize::MAX), None);
}

#[test]
fn attrib_pointer_in_bytes() {
    let vao = VertexArray::new(2);
    assert_eq!(vao.id(), 2);
    assert_eq!(
        vao.attrib_pointer(2, 3, 8, 5),
        Some(AttribPointer { location: 2, size: 3, stride_bytes: 32, offset_bytes: 20 })
    );
    assert_eq!(vao.attrib_pointer(0, 3, usize::MAX / 2, 0), None);
    assert_eq!(vao.attrib_pointer(0, 3, 8, usize::MAX), None);
}
