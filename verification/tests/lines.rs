use fur_shell::pipelines::debug::{DebugPipeline, DebugVertex};
use fur_shell::resources::buffer::Transfer;
use fur_shell::resources::model::Vec3Bits;

fn vertex(tag: u32) -> DebugVertex {
    DebugVertex::new(
        Vec3Bits { x: tag, y: tag + 1, z: tag + 2 },
        Vec3Bits { x: 0, y: 0, z: 0 },
    )
}

#[test]
fn five_pushes_yield_consecutive_indices() {
    let pipeline = DebugPipeline::new();
    let mut batch = pipeline.batch();
    for tag in 0..5u32 {
        batch.push_vertex(vertex(10 * tag));
    }
    let (pipeline, _, _) = batch.close();
    assert_eq!(pipeline.index_records().as_slice(), &[0, 1, 2, 3, 4]);
    let vs = pipeline.vertex_records();
    assert_eq!(vs.len(), 5);
    for (k, v) in vs.iter().enumerate() {
        assert_eq!(*v, vertex(10 * k as u32));
    }
}

#[test]
fn clear_then_push_restarts_indices() {
    let pipeline = DebugPipeline::new();
    let mut batch = pipeline.batch();
    for tag in 0..5u32 {
        batch.push_vertex(vertex(tag));
    }
    let (mut pipeline, _, _) = batch.close();
    pipeline.clear();
    let mut batch = pipeline.batch();
    batch.push_vertex(vertex(0));
    let (pipeline, _, _) = batch.close();
    assert_eq!(pipeline.index_records().as_slice(), &[0]);
    assert_eq!(pipeline.vertex_records().len(), 1);
}

#[test]
fn second_batch_continues_numbering() {
    let pipeline = DebugPipeline::new();
    let mut batch = pipeline.batch();
    batch.push_vertex(vertex(0));
    batch.push_vertex(vertex(1));
    let (pipeline, _, _) = batch.close();
    let mut batch = pipeline.batch();
    batch.push_vertex(vertex(2));
    let (pipeline, _, _) = batch.close();
    assert_eq!(pipeline.index_records().as_slice(), &[0, 1, 2]);
}

#[test]
fn line_transfers_report_both_buffers() {
    let pipeline = DebugPipeline::new();
    let mut batch = pipeline.batch();
    batch.push_vertex(vertex(3));
    let (pipeline, vertex_transfer, index_transfer) = batch.close();
    assert_eq!(vertex_transfer, Transfer::Write { start: 0, count: 1 });
    assert_eq!(index_transfer, Transfer::Write { start: 0, count: 1 });
    let command = pipeline.draw_lines();
    assert_eq!(command.index_count, 1);
    assert_eq!(command.instance_count, 1);
}
