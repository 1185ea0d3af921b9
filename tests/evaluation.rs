use sdf_scene::{
    decode_results, encode_points, EvaluationPipeline, SdfEvaluationRequest, SdfResult, Submission, Vec2Bits,
};

fn points(coords: &[(f32, f32)]) -> Vec<Vec2Bits> {
    coords.iter().map(|&(x, y)| Vec2Bits { x: x.to_bits(), y: y.to_bits() }).collect()
}

fn request(n: usize, id: u64) -> SdfEvaluationRequest {
    let mut ps = Vec::new();
    for i in 0..n {
        ps.push(Vec2Bits { x: (i as f32).to_bits(), y: 0.5f32.to_bits() });
    }
    SdfEvaluationRequest { points: ps, id }
}

/// A readback buffer of `len` bytes whose first records hold `distances`.
fn readback(len: usize, distances: &[f32]) -> Vec<u8> {
    let mut bytes = vec![0u8; len];
    for (k, d) in distances.iter().enumerate() {
        bytes[4 * k..4 * k + 4].copy_from_slice(&d.to_bits().to_le_bytes());
    }
    bytes
}

#[test]
fn round_trip_gives_one_result_per_point_in_order() {
    let mut p = EvaluationPipeline::new();
    let req = SdfEvaluationRequest { points: points(&[(0.5, 0.5), (0.25, 0.75), (1.0, 0.0)]), id: 7 };
    assert_eq!(p.submit(req), Submission::Queued);
    let d = p.begin_dispatch().unwrap();
    assert_eq!(d.id, 7);
    assert_eq!(d.point_count, 3);
    assert_eq!(d.workgroups, 1);
    assert_eq!(d.copy_bytes, 4 * 1024);
    assert_eq!(d.upload.len(), 24);
    assert_eq!(&d.upload[0..4], &0.5f32.to_bits().to_le_bytes());
    assert_eq!(&d.upload[8..12], &0.25f32.to_bits().to_le_bytes());
    assert!(p.has_outstanding_mapping());
    let mapped = readback(d.copy_bytes, &[-1.0, 0.0, 2.5, 9.0]);
    let resp = p.complete_mapping(Some(&mapped)).unwrap();
    assert_eq!(resp.id, 7);
    let ds: Vec<f32> = resp.results.iter().map(|r| f32::from_bits(r.distance)).collect();
    assert_eq!(ds, vec![-1.0, 0.0, 2.5]);
    assert!(!p.has_outstanding_mapping());
    assert!(p.begin_dispatch().is_none());
}

#[test]
fn zero_point_request_is_dropped() {
    let mut p = EvaluationPipeline::new();
    assert_eq!(p.submit(request(0, 1)), Submission::Dropped);
    assert_eq!(p.pending_count(), 0);
    assert!(p.begin_dispatch().is_none());
    assert!(p.complete_mapping(None).is_none());
}

#[test]
fn at_most_one_mapping_and_fifo_order() {
    let mut p = EvaluationPipeline::new();
    p.submit(request(3, 10));
    p.submit(request(5, 11));
    p.submit(request(2, 12));
    let mut served = Vec::new();
    for _ in 0..3 {
        let d = p.begin_dispatch().unwrap();
        assert!(p.has_outstanding_mapping());
        assert!(p.begin_dispatch().is_none());
        let mapped = readback(d.copy_bytes, &[]);
        let resp = p.complete_mapping(Some(&mapped)).unwrap();
        assert_eq!(resp.id, d.id);
        assert_eq!(resp.results.len(), d.point_count);
        served.push(resp.id);
    }
    assert_eq!(served, vec![10, 11, 12]);
    assert_eq!(p.pending_count(), 0);
}

#[test]
fn back_to_back_requests_wait_for_the_first_mapping() {
    let mut p = EvaluationPipeline::new();
    let first = SdfEvaluationRequest { points: points(&[(0.1, 0.2)]), id: 1 };
    let second = SdfEvaluationRequest { points: points(&[(0.9, 0.8), (0.7, 0.6)]), id: 2 };
    let second_bytes = encode_points(&second.points);
    p.submit(first);
    p.submit(second);
    let d1 = p.begin_dispatch().unwrap();
    assert_eq!(d1.id, 1);
    assert_eq!(d1.upload.len(), 8);
    // Frames pass while the first mapping is outstanding: nothing is uploaded.
    for _ in 0..5 {
        assert!(p.begin_dispatch().is_none());
        assert_eq!(p.pending_count(), 1);
    }
    let mapped = readback(d1.copy_bytes, &[0.0]);
    let r1 = p.complete_mapping(Some(&mapped)).unwrap();
    assert_eq!(r1.id, 1);
    let d2 = p.begin_dispatch().unwrap();
    assert_eq!(d2.id, 2);
    assert_eq!(d2.upload, second_bytes);
}

#[test]
fn dispatch_covers_the_largest_pending_request() {
    let mut p = EvaluationPipeline::new();
    p.submit(request(10, 1));
    p.submit(request(130, 2));
    p.submit(request(65, 3));
    let d = p.begin_dispatch().unwrap();
    assert_eq!(d.id, 1);
    assert_eq!(d.point_count, 10);
    assert_eq!(d.workgroups, 3);
    p.complete_mapping(None);
    let d = p.begin_dispatch().unwrap();
    assert_eq!(d.workgroups, 3);
    p.complete_mapping(None);
    let d = p.begin_dispatch().unwrap();
    assert_eq!(d.workgroups, 2);
}

#[test]
fn failed_mapping_gives_an_empty_reply() {
    let mut p = EvaluationPipeline::new();
    p.submit(request(4, 9));
    p.begin_dispatch().unwrap();
    let resp = p.complete_mapping(None).unwrap();
    assert_eq!(resp.id, 9);
    assert!(resp.results.is_empty());
    assert!(!p.has_outstanding_mapping());
}

#[test]
fn short_readback_gives_an_empty_reply() {
    let mut p = EvaluationPipeline::new();
    p.submit(request(4, 9));
    p.begin_dispatch().unwrap();
    let short = vec![0u8; 15];
    let resp = p.complete_mapping(Some(&short)).unwrap();
    assert!(resp.results.is_empty());
}

#[test]
fn decode_reads_little_endian_records() {
    let bytes = [0x01, 0x00, 0x00, 0x00, 0x00, 0x00, 0x80, 0x3f, 0xff];
    assert_eq!(decode_results(&bytes, 2), vec![SdfResult { distance: 1 }, SdfResult { distance: 0x3f80_0000 }]);
    assert_eq!(decode_results(&bytes, 0), vec![]);
    assert_eq!(decode_results(&bytes, 3), vec![]);
}

#[test]
fn evaluation_at_the_centre_sphere_reads_back_zero() {
    let mut p = EvaluationPipeline::new();
    p.submit(SdfEvaluationRequest { points: points(&[(0.5, 0.5)]), id: 3 });
    let d = p.begin_dispatch().unwrap();
    // The compute pass wrote the distance at the ray through the origin.
    let mapped = readback(d.copy_bytes, &[0.0]);
    let resp = p.complete_mapping(Some(&mapped)).unwrap();
    assert_eq!(resp.results.len(), 1);
    assert!(f32::from_bits(resp.results[0].distance).abs() < 1e-4);
}
