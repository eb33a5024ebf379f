use pdf2excel::text::decimal_text;
use pdf2excel::{
    check_script, classify_document, classify_output, parse_pdf_result, BridgeError, IoStage,
    OrderItem, PdfInfo,
};

#[test]
fn nonzero_exit_reports_code_and_stderr() {
    let r = classify_output(Some(2), "{\"items\": []}", "Traceback: boom\nline 2");
    match r {
        Err(e) => {
            assert!(matches!(e, BridgeError::ProcessFailure { code: 2, .. }));
            assert_eq!(
                e.message(),
                "Python process failed: 2 (stderr: Traceback: boom\nline 2)"
            );
        }
        Ok(_) => panic!("a failed run must not succeed"),
    }
}

#[test]
fn negative_exit_code_is_written_with_sign() {
    let e = classify_output(Some(-11), "", "segfault").unwrap_err();
    assert_eq!(e.message(), "Python process failed: -11 (stderr: segfault)");
}

#[test]
fn missing_exit_code_counts_as_minus_one() {
    let e = classify_output(None, "{}", "killed").unwrap_err();
    assert_eq!(e.message(), "Python process failed: -1 (stderr: killed)");
}

#[test]
fn extreme_exit_codes_render_in_full() {
    let e = classify_output(Some(i32::MIN), "", "").unwrap_err();
    assert_eq!(e.message(), "Python process failed: -2147483648 (stderr: )");
    let e = classify_output(Some(i32::MAX), "", "x").unwrap_err();
    assert_eq!(e.message(), "Python process failed: 2147483647 (stderr: x)");
    let e = classify_output(Some(1), "", "").unwrap_err();
    assert_eq!(e.message(), "Python process failed: 1 (stderr: )");
}

#[test]
fn malformed_output_is_a_protocol_error() {
    for text in ["", "not json", "{\"items\": [", "{} trailing", "[1, 2,]"] {
        match classify_output(Some(0), text, "") {
            Err(BridgeError::ProtocolError { output, reason }) => {
                assert_eq!(output, text);
                assert!(!reason.is_empty());
            }
            _ => panic!("expected a protocol error for {:?}", text),
        }
    }
}

#[test]
fn protocol_error_message_carries_output() {
    let e = classify_output(Some(0), "oops", "").unwrap_err();
    let m = e.message();
    assert!(m.starts_with("Failed to parse Python output: "));
    assert!(m.ends_with(" (output: oops)"));
}

#[test]
fn error_member_overrides_zero_exit() {
    let e = classify_output(Some(0), "{\"error\": \"bad page\"}", "").unwrap_err();
    match &e {
        BridgeError::DomainError { message } => assert_eq!(message, "bad page"),
        _ => panic!("expected a domain error"),
    }
    assert_eq!(e.message(), "bad page");
}

#[test]
fn non_string_error_member_is_unknown_error() {
    let e = classify_output(Some(0), "{\"error\": 42}", "").unwrap_err();
    assert_eq!(e.message(), "Unknown error");
}

#[test]
fn response_without_error_member_passes_through() {
    let doc = classify_output(Some(0), "{\"ok\": true, \"n\": 3}", "").unwrap();
    assert_eq!(doc["ok"].as_bool(), Some(true));
    assert_eq!(doc["n"].as_i64(), Some(3));
}

#[test]
fn classify_document_by_error_member() {
    let doc = serde_json::Value::Null;
    assert!(classify_document(doc.clone(), None).is_ok());
    let e = classify_document(doc.clone(), Some(Some("x".to_string()))).unwrap_err();
    assert_eq!(e.message(), "x");
    let e = classify_document(doc, Some(None)).unwrap_err();
    assert_eq!(e.message(), "Unknown error");
}

#[test]
fn script_must_exist() {
    assert!(check_script(true, "\"/tmp/p.py\"".to_string()).is_ok());
    let e = check_script(false, "\"/tmp/p.py\"".to_string()).unwrap_err();
    assert_eq!(e.message(), "Python script not found: \"/tmp/p.py\"");
}

#[test]
fn every_error_renders_its_message() {
    let e = BridgeError::SpawnFailure { reason: "No such file".to_string(), interpreter: "\"python3\"".to_string() };
    assert_eq!(e.message(), "Failed to start Python: No such file (path: \"python3\")");
    let e = BridgeError::EncodeFailure { reason: "bad".to_string() };
    assert_eq!(e.message(), "Failed to serialize JSON: bad");
    let e = BridgeError::IoFailure { stage: IoStage::WriteInput, reason: "pipe".to_string() };
    assert_eq!(e.message(), "Failed to write to Python stdin: pipe");
    let e = BridgeError::IoFailure { stage: IoStage::ReadOutput, reason: "r".to_string() };
    assert_eq!(e.message(), "Failed to read Python stdout: r");
    let e = BridgeError::IoFailure { stage: IoStage::ReadErrors, reason: "r".to_string() };
    assert_eq!(e.message(), "Failed to read Python stderr: r");
    let e = BridgeError::IoFailure { stage: IoStage::Wait, reason: "w".to_string() };
    assert_eq!(e.message(), "Failed to wait for Python: w");
    assert_eq!(BridgeError::NoRows.message(), "未能从PDF中提取到有效的表格数据");
}

fn text_of(v: &serde_json::Value, key: &str) -> String {
    v[key].as_str().unwrap().to_string()
}

#[test]
fn empty_items_fail_despite_zero_exit() {
    let body = "{\"items\": [], \"info\": {\"orderNo\": \"PO1\", \"supplierNo\": \"S1\", \"supplierName\": \"Acme\", \"customerName\": \"Beta\", \"currency\": \"CNY\"}}";
    let doc = classify_output(Some(0), body, "").unwrap();
    assert_eq!(doc["items"].as_array().map(|a| a.len()), Some(0));
    let info = PdfInfo {
        order_no: text_of(&doc["info"], "orderNo"),
        supplier_no: text_of(&doc["info"], "supplierNo"),
        supplier_name: text_of(&doc["info"], "supplierName"),
        customer_name: text_of(&doc["info"], "customerName"),
        currency: text_of(&doc["info"], "currency"),
    };
    let e = parse_pdf_result(Some(Vec::new()), Some(info)).unwrap_err();
    assert!(matches!(e, BridgeError::NoRows));
    assert_eq!(e.message(), "未能从PDF中提取到有效的表格数据");
}

#[test]
fn parse_round_trip_keeps_row_and_header() {
    let body = "{\"items\":[{\"id\":\"1\",\"日期\":\"2024-01-01\",\"客户名\":\"Beta\",\"订单号\":\"PO1\",\"零件号\":\"P-100\",\"零件描述\":\"螺栓 M8\",\"数量\":\"10\",\"价格\":\"1.50\",\"金额\":\"15.00\",\"计划交货日期\":\"2024-02-01\",\"订单交期\":\"2024-02-15\"}],\"info\":{\"orderNo\":\"PO1\",\"supplierNo\":\"S1\",\"supplierName\":\"Acme\",\"customerName\":\"Beta\",\"currency\":\"CNY\"}}";
    let doc = classify_output(Some(0), body, "").unwrap();
    let rows = doc["items"].as_array().unwrap();
    let items: Vec<OrderItem> = rows
        .iter()
        .map(|r| OrderItem {
            id: text_of(r, "id"),
            date: text_of(r, "日期"),
            customer_name: text_of(r, "客户名"),
            order_no: text_of(r, "订单号"),
            part_no: text_of(r, "零件号"),
            part_description: text_of(r, "零件描述"),
            quantity: text_of(r, "数量"),
            price: text_of(r, "价格"),
            amount: text_of(r, "金额"),
            planned_delivery_date: text_of(r, "计划交货日期"),
            order_due_date: text_of(r, "订单交期"),
        })
        .collect();
    let h = &doc["info"];
    let info = PdfInfo {
        order_no: text_of(h, "orderNo"),
        supplier_no: text_of(h, "supplierNo"),
        supplier_name: text_of(h, "supplierName"),
        customer_name: text_of(h, "customerName"),
        currency: text_of(h, "currency"),
    };
    let p = parse_pdf_result(Some(items), Some(info)).unwrap();
    assert_eq!(p.items.len(), 1);
    let it = &p.items[0];
    assert_eq!(it.id, "1");
    assert_eq!(it.date, "2024-01-01");
    assert_eq!(it.customer_name, "Beta");
    assert_eq!(it.order_no, "PO1");
    assert_eq!(it.part_no, "P-100");
    assert_eq!(it.part_description, "螺栓 M8");
    assert_eq!(it.quantity, "10");
    assert_eq!(it.price, "1.50");
    assert_eq!(it.amount, "15.00");
    assert_eq!(it.planned_delivery_date, "2024-02-01");
    assert_eq!(it.order_due_date, "2024-02-15");
    assert_eq!(p.info.order_no, "PO1");
    assert_eq!(p.info.supplier_no, "S1");
    assert_eq!(p.info.supplier_name, "Acme");
    assert_eq!(p.info.customer_name, "Beta");
    assert_eq!(p.info.currency, "CNY");
}

#[test]
fn decimal_rendering() {
    assert_eq!(decimal_text(0), "0");
    assert_eq!(decimal_text(7), "7");
    assert_eq!(decimal_text(10), "10");
    assert_eq!(decimal_text(1234), "1234");
    assert_eq!(decimal_text(-5), "-5");
    assert_eq!(decimal_text(-100), "-100");
}

#[test]
fn error_member_with_other_members_still_wins() {
    let e = classify_output(Some(0), "{\"items\": [{\"id\": \"1\"}], \"error\": \"表格缺失\"}", "").unwrap_err();
    assert_eq!(e.message(), "表格缺失");
}
