use llm_gateway::aggregate::Aggregator;

fn aggregate_chunks(chunks: &[&[u8]]) -> String {
    let mut agg = Aggregator::new();
    for chunk in chunks {
        agg.push_chunk(chunk);
    }
    agg.finish()
}

#[test]
fn terminated_lines_aggregate_in_order() {
    let body = b"{\"response\": \"Hello\"}\n{\"response\": \", \"}\n{\"response\": \"world\"}\n";
    assert_eq!(aggregate_chunks(&[body]), "Hello, world");
}

#[test]
fn chunk_boundaries_do_not_matter() {
    let body: &[u8] = b"{\"response\": \"Hello\"}\n{\"response\": \" there\"}\n";
    let whole = aggregate_chunks(&[body]);
    assert_eq!(whole, "Hello there");

    let mut agg = Aggregator::new();
    for byte in body {
        agg.push_chunk(&[*byte]);
    }
    assert_eq!(agg.finish(), whole);

    for split in 0..body.len() {
        let (left, right) = body.split_at(split);
        assert_eq!(aggregate_chunks(&[left, right]), whole);
    }
}

#[test]
fn malformed_lines_are_skipped() {
    let body: &[u8] = b"not json at all\n{\"response\": \"a\"}\n{\"status\": \"ok\"}\n{\"response\": 7}\n{\"response\": \"b\"}\n";
    assert_eq!(aggregate_chunks(&[body]), "ab");
}

#[test]
fn read_error_keeps_the_fragments_received() {
    let mut agg = Aggregator::new();
    agg.push_chunk(b"{\"response\": \"one\"}\n{\"response\": \"two\"}\n");
    agg.push_chunk(b"{\"respo");
    assert_eq!(agg.finish(), "onetwo");
}

#[test]
fn carriage_returns_are_stripped() {
    let body: &[u8] = b"{\"response\": \"a\"}\r\n{\"response\": \"b\"}\r\n";
    assert_eq!(aggregate_chunks(&[body]), "ab");
}

#[test]
fn unterminated_final_line_is_discarded() {
    let body: &[u8] = b"{\"response\": \"kept\"}\n{\"response\": \"dropped\"}";
    assert_eq!(aggregate_chunks(&[body]), "kept");
}

#[test]
fn empty_fragment_appends_nothing() {
    let body: &[u8] = b"{\"response\": \"\"}\n{\"response\": \"x\"}\n{\"response\": \"\"}\n";
    assert_eq!(aggregate_chunks(&[body]), "x");
}

#[test]
fn empty_stream_yields_empty_answer() {
    assert_eq!(aggregate_chunks(&[]), "");
    assert_eq!(aggregate_chunks(&[b""]), "");
}

#[test]
fn fragments_with_escapes_are_decoded() {
    let body: &[u8] = b"{\"response\": \"line\\nbreak\"}\n";
    assert_eq!(aggregate_chunks(&[body]), "line\nbreak");
}
