use frame_relay::page::{
    index_page, CALL_CLOSE, CALL_OPEN, CARD_CANVAS, CARD_CLOSE, CARD_LOCATION, CARD_OPEN,
    CARD_RATE, CARD_STATS, PAGE_HEAD, PAGE_SCRIPT, PAGE_TAIL,
};

fn card(name: &str, lower: &str) -> String {
    format!(
        "{}{}{}{}{}{}{}{}{}{}{}",
        CARD_OPEN, name, CARD_CANVAS, lower, CARD_RATE, lower, CARD_LOCATION, name, CARD_STATS,
        lower, CARD_CLOSE
    )
}

#[test]
fn page_without_streams_is_the_fixed_text() {
    let page = index_page(&[]);
    assert_eq!(page, format!("{}{}{}", PAGE_HEAD, PAGE_SCRIPT, PAGE_TAIL));
    assert_eq!(page.len(), 5493 + 7310 + 486);
    assert!(page.starts_with("\n    <!DOCTYPE html>\n    <html>\n"));
    assert!(page.ends_with("</script>\n    </body>\n    </html>\n    "));
    assert!(!page.contains("setupStream('"));
}

#[test]
fn page_with_one_stream_has_its_card_and_call() {
    let page = index_page(&[String::from("CCTV_Front")]);
    let expected = format!(
        "{}{}{}{}CCTV_Front{}{}",
        PAGE_HEAD,
        card("CCTV_Front", "cctv_front"),
        PAGE_SCRIPT,
        CALL_OPEN,
        CALL_CLOSE,
        PAGE_TAIL
    );
    assert_eq!(page, expected);
    assert!(page.contains("<div class=\"stream-name\">CCTV_Front</div>"));
    assert!(page.contains("<canvas id=\"canvas-cctv_front\" width=\"640\" height=\"360\"></canvas>"));
    assert!(page.contains("<div class=\"fps\" id=\"fps-cctv_front\">0 FPS</div>"));
    assert!(page.contains("<div class=\"location\">CCTV_Front</div>"));
    assert!(page.contains("<div class=\"stats\" id=\"stats-cctv_front\"></div>"));
    assert!(page.contains("            setupStream('CCTV_Front');\n"));
    assert!(!page.contains("canvas-CCTV_Front"));
}

#[test]
fn page_keeps_the_order_of_the_streams() {
    let names = vec![String::from("B"), String::from("a"), String::from("C")];
    let page = index_page(&names);
    let expected = format!(
        "{}{}{}{}{}{}{}{}{}",
        PAGE_HEAD,
        card("B", "b"),
        card("a", "a"),
        card("C", "c"),
        PAGE_SCRIPT,
        "            setupStream('B');\n",
        "            setupStream('a');\n",
        "            setupStream('C');\n",
        PAGE_TAIL
    );
    assert_eq!(page, expected);
    let b = page.find("canvas-b\"").unwrap();
    let a = page.find("canvas-a\"").unwrap();
    let c = page.find("canvas-c\"").unwrap();
    assert!(b < a && a < c);
}
