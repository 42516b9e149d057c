use glkit::buffer::{
    bind_array, bind_buffer, generate_buffer, generate_vertex_array, packed_stride,
    set_buffer_data, set_target_data, set_vertex_array_pointer,
};
use glkit::driver::{Command, Reply, ARRAY_BUFFER, FLOAT};
use glkit::error::Error;
use glkit::handle::Allocation;

const STATIC_DRAW: u32 = 0x88E4;
const ELEMENT_ARRAY_BUFFER: u32 = 0x8893;

#[test]
fn buffer_upload_and_description_scenario() {
    let (state, batch) = generate_buffer();
    assert_eq!(batch, vec![Command::GenBuffers]);
    let (state, _) = state.advance(Reply::Name(4));
    assert_eq!(state, Allocation::Finished(Ok(4)));
    let data: Vec<f32> = vec![1.0, 2.0, 3.0];
    assert_eq!(
        set_buffer_data(4, STATIC_DRAW, &data),
        Ok(vec![
            Command::BindBuffer { target: ARRAY_BUFFER, buffer: 4 },
            Command::BufferData { target: ARRAY_BUFFER, length: 12, usage: STATIC_DRAW },
        ])
    );
    assert_eq!(
        set_vertex_array_pointer(8, 4, 0, 3),
        Ok(vec![
            Command::BindVertexArray { array: 8 },
            Command::BindBuffer { target: ARRAY_BUFFER, buffer: 4 },
            Command::EnableVertexAttribArray { index: 0 },
            Command::VertexAttribPointer {
                index: 0,
                size: 3,
                component: FLOAT,
                normalized: false,
                stride: 0,
                offset: 0,
            },
            Command::BindVertexArray { array: 0 },
        ])
    );
    assert_eq!(packed_stride(3), Ok(12));
}

#[test]
fn component_counts_outside_one_to_four_are_invalid() {
    assert_eq!(set_vertex_array_pointer(8, 4, 0, 0), Err(Error::InvalidArgument));
    assert_eq!(set_vertex_array_pointer(8, 4, 0, 5), Err(Error::InvalidArgument));
    assert_eq!(set_vertex_array_pointer(8, 4, 0, -1), Err(Error::InvalidArgument));
    assert_eq!(set_vertex_array_pointer(8, 4, 0, i32::MAX), Err(Error::InvalidArgument));
    assert_eq!(set_vertex_array_pointer(8, 4, 0, i32::MIN), Err(Error::InvalidArgument));
}

#[test]
fn component_counts_one_to_four_are_described() {
    for size in [1, 2, 3, 4] {
        let batch = set_vertex_array_pointer(8, 4, 2, size).unwrap();
        assert_eq!(batch.len(), 5);
        assert_eq!(
            batch[3],
            Command::VertexAttribPointer {
                index: 2,
                size,
                component: FLOAT,
                normalized: false,
                stride: 0,
                offset: 0,
            }
        );
    }
}

#[test]
fn packed_stride_is_four_bytes_per_component() {
    assert_eq!(packed_stride(1), Ok(4));
    assert_eq!(packed_stride(2), Ok(8));
    assert_eq!(packed_stride(4), Ok(16));
    assert_eq!(packed_stride(0), Err(Error::InvalidArgument));
    assert_eq!(packed_stride(5), Err(Error::InvalidArgument));
    assert_eq!(packed_stride(-1), Err(Error::InvalidArgument));
}

#[test]
fn byte_length_is_count_times_element_size() {
    let bytes: Vec<u8> = vec![1, 2, 3, 4, 5];
    assert_eq!(
        set_buffer_data(4, STATIC_DRAW, &bytes).unwrap()[1],
        Command::BufferData { target: ARRAY_BUFFER, length: 5, usage: STATIC_DRAW }
    );
    let pairs: Vec<(u16, u16)> = vec![(1, 2), (3, 4), (5, 6)];
    assert_eq!(
        set_buffer_data(4, STATIC_DRAW, &pairs).unwrap()[1],
        Command::BufferData { target: ARRAY_BUFFER, length: 12, usage: STATIC_DRAW }
    );
    let doubles: Vec<f64> = Vec::new();
    assert_eq!(
        set_buffer_data(4, STATIC_DRAW, &doubles).unwrap()[1],
        Command::BufferData { target: ARRAY_BUFFER, length: 0, usage: STATIC_DRAW }
    );
}

#[test]
fn data_goes_to_the_target_that_the_caller_names() {
    let indices: Vec<u32> = vec![0, 1, 2, 2, 3, 0];
    assert_eq!(
        set_target_data(6, ELEMENT_ARRAY_BUFFER, STATIC_DRAW, &indices),
        Ok(vec![
            Command::BindBuffer { target: ELEMENT_ARRAY_BUFFER, buffer: 6 },
            Command::BufferData { target: ELEMENT_ARRAY_BUFFER, length: 24, usage: STATIC_DRAW },
        ])
    );
}

#[test]
fn zero_names_are_allocation_errors() {
    let (state, _) = generate_buffer();
    assert_eq!(
        state.advance(Reply::Name(0)).0,
        Allocation::Finished(Err(Error::AllocationError))
    );
    let (state, batch) = generate_vertex_array();
    assert_eq!(batch, vec![Command::GenVertexArrays]);
    assert_eq!(
        state.advance(Reply::Name(0)).0,
        Allocation::Finished(Err(Error::AllocationError))
    );
}

#[test]
fn allocation_refuses_an_answer_that_is_no_name() {
    let (state, _) = generate_vertex_array();
    assert_eq!(
        state.advance(Reply::Value(3)).0,
        Allocation::Finished(Err(Error::InvalidArgument))
    );
    assert_eq!(
        Allocation::Finished(Ok(3)).advance(Reply::Name(0)).0,
        Allocation::Finished(Ok(3))
    );
}

#[test]
fn binds_are_single_calls() {
    assert_eq!(bind_buffer(4, ARRAY_BUFFER), vec![Command::BindBuffer { target: ARRAY_BUFFER, buffer: 4 }]);
    assert_eq!(bind_array(8), vec![Command::BindVertexArray { array: 8 }]);
}
