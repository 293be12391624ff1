use gfx_backend::command::{
    Buffer, Command, DataBuffer, DataPointer, Diagnostic, NativeCall, Program, Stage,
    MAX_CONSTANT_BUFFERS, MAX_VERTEX_ATTRIBUTES,
};
use gfx_backend::execute::{is_command_supported, pad_slots, process};
use gfx_backend::memory::Usage;

#[test]
fn replay_of_draw_sequence() {
    let data = DataBuffer::new();
    let program = Program { vs: 10, hs: 0, ds: 0, gs: 0, ps: 20 };
    let commands = vec![
        Command::BindProgram(program),
        Command::BindVertexBuffers(vec![30], vec![12], vec![0]),
        Command::SetPrimitive(4),
        Command::Draw(3, 0),
    ];
    let mut calls = Vec::new();
    for c in &commands {
        calls.extend(process(c, &data));
    }
    assert_eq!(calls.len(), 8);
    let stages = [
        (Stage::Vertex, 10),
        (Stage::Hull, 0),
        (Stage::Domain, 0),
        (Stage::Geometry, 0),
        (Stage::Pixel, 20),
    ];
    for (i, (st, sh)) in stages.iter().enumerate() {
        match calls[i] {
            NativeCall::SetShader { stage, shader } => {
                assert_eq!(stage, *st);
                assert_eq!(shader, *sh);
            },
            ref other => panic!("unexpected call {:?}", other),
        }
    }
    match &calls[5] {
        NativeCall::SetVertexBuffers { count, buffers, strides, offsets } => {
            assert_eq!(*count, MAX_VERTEX_ATTRIBUTES);
            assert_eq!(buffers.len(), MAX_VERTEX_ATTRIBUTES);
            assert_eq!(buffers[0], 30);
            assert_eq!(strides[0], 12);
            assert_eq!(offsets[0], 0);
            assert!(buffers[1..].iter().all(|b| *b == 0));
        },
        other => panic!("unexpected call {:?}", other),
    }
    assert!(matches!(calls[6], NativeCall::SetPrimitiveTopology { topology: 4 }));
    assert!(matches!(calls[7], NativeCall::Draw { vertex_count: 3, start_vertex: 0 }));
}

#[test]
fn constant_buffers_rebind_every_slot() {
    let data = DataBuffer::new();
    let calls = process(&Command::BindConstantBuffers(Stage::Pixel, vec![1, 2, 3]), &data);
    assert_eq!(calls.len(), 1);
    match &calls[0] {
        NativeCall::SetConstantBuffers { stage, count, buffers } => {
            assert_eq!(*stage, Stage::Pixel);
            assert_eq!(*count, MAX_CONSTANT_BUFFERS);
            assert_eq!(buffers.len(), 14);
            assert_eq!(&buffers[..4], &[1, 2, 3, 0]);
        },
        other => panic!("unexpected call {:?}", other),
    }
}

#[test]
fn pad_slots_truncates_and_fills() {
    assert_eq!(pad_slots(&vec![1u64, 2, 3], 2, 0), vec![1, 2]);
    assert_eq!(pad_slots(&vec![7u32], 3, 9), vec![7, 9, 9]);
}

#[test]
fn update_buffer_command_reads_data_buffer() {
    let mut data = DataBuffer::new();
    let first = data.add(&[1, 2, 3]);
    let second = data.add(&[4, 5]);
    assert_eq!(first, DataPointer { offset: 0, size: 3 });
    assert_eq!(second, DataPointer { offset: 3, size: 2 });
    assert_eq!(data.get(second), Some(&[4u8, 5][..]));
    let buffer = Buffer { resource: 2, usage: Usage::GpuOnly };
    let calls = process(&Command::UpdateBuffer(buffer, second, 6), &data);
    assert_eq!(calls.len(), 1);
    assert!(matches!(calls[0], NativeCall::UpdateSubresource { resource: 2, .. }));
}

#[test]
fn update_with_payload_outside_data_buffer_reports_error() {
    let mut data = DataBuffer::new();
    data.add(&[1, 2, 3]);
    let bad = DataPointer { offset: 2, size: 5 };
    assert_eq!(data.get(bad), None);
    let buffer = Buffer { resource: 2, usage: Usage::GpuOnly };
    let calls = process(&Command::UpdateBuffer(buffer, bad, 0), &data);
    assert_eq!(calls.len(), 1);
    match calls[0] {
        NativeCall::ReportError { diagnostic } => assert_eq!(diagnostic, Diagnostic::DataOutOfRange(bad)),
        ref other => panic!("unexpected call {:?}", other),
    }
}

#[test]
fn draw_commands_pass_through() {
    let data = DataBuffer::new();
    let calls = process(&Command::DrawIndexedInstanced(6, 2, 1, -3, 4), &data);
    assert!(matches!(
        calls[0],
        NativeCall::DrawIndexedInstanced {
            index_count: 6,
            instance_count: 2,
            start_index: 1,
            base_vertex: -3,
            start_instance: 4
        }
    ));
    let calls = process(&Command::DrawIndexed(9, 3, 2), &data);
    assert!(matches!(calls[0], NativeCall::DrawIndexed { index_count: 9, start_index: 3, base_vertex: 2 }));
}

#[test]
fn persistent_update_command_is_unsupported() {
    let persistent = Usage::Persistent(gfx_backend::memory::Access { read: false, write: true });
    let p = DataPointer { offset: 0, size: 1 };
    assert!(!is_command_supported(&Command::UpdateBuffer(Buffer { resource: 1, usage: persistent }, p, 0)));
    assert!(is_command_supported(&Command::UpdateBuffer(Buffer { resource: 1, usage: Usage::Dynamic }, p, 0)));
    assert!(is_command_supported(&Command::Draw(3, 0)));
}
