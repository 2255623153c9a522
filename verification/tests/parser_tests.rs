use location_rs::parse_country_code;

#[test]
fn parser_tests_test_basic_iso_code_parsing() {
    assert_eq!(parse_country_code("US Node").unwrap().alpha2, "US");
    assert_eq!(parse_country_code("CN Server").unwrap().alpha2, "CN");
    assert_eq!(parse_country_code("HK Vip").unwrap().alpha2, "HK");
    assert_eq!(parse_country_code("JP Server").unwrap().alpha2, "JP");
    assert_eq!(parse_country_code("KR Node").unwrap().alpha2, "KR");
    assert_eq!(parse_country_code("SG Vip").unwrap().alpha2, "SG");
    assert_eq!(parse_country_code("TW Server").unwrap().alpha2, "TW");
    assert_eq!(parse_country_code("GB Node").unwrap().alpha2, "GB");
    assert_eq!(parse_country_code("DE Vip").unwrap().alpha2, "DE");
    assert_eq!(parse_country_code("FR Server").unwrap().alpha2, "FR");
}

#[test]
fn parser_tests_test_chinese_name_parsing() {
    assert_eq!(parse_country_code("美国节点").unwrap().alpha2, "US");
    assert_eq!(parse_country_code("中国服务器").unwrap().alpha2, "CN");
    assert_eq!(parse_country_code("香港服务").unwrap().alpha2, "HK");
    assert_eq!(parse_country_code("日本节点").unwrap().alpha2, "JP");
    assert_eq!(parse_country_code("韩国服务器").unwrap().alpha2, "KR");
    assert_eq!(parse_country_code("新加坡服务").unwrap().alpha2, "SG");
    assert_eq!(parse_country_code("台湾服务").unwrap().alpha2, "TW");
    assert_eq!(parse_country_code("英国服务器").unwrap().alpha2, "GB");
    assert_eq!(parse_country_code("德国服务").unwrap().alpha2, "DE");
    assert_eq!(parse_country_code("法国节点").unwrap().alpha2, "FR");
    assert_eq!(parse_country_code("中國服務器").unwrap().alpha2, "CN");
    assert_eq!(parse_country_code("美國節點").unwrap().alpha2, "US");
    assert_eq!(parse_country_code("臺灣服務").unwrap().alpha2, "TW");
    assert_eq!(parse_country_code("英國服務器").unwrap().alpha2, "GB");
    assert_eq!(parse_country_code("德國節點").unwrap().alpha2, "DE");
    assert_eq!(parse_country_code("法國服務").unwrap().alpha2, "FR");
}

#[test]
fn test_alpha3_code_parsing() {
    assert_eq!(parse_country_code("USA Node").unwrap().alpha2, "US");
    assert_eq!(parse_country_code("CHN Server").unwrap().alpha2, "CN");
    assert_eq!(parse_country_code("HKG Vip").unwrap().alpha2, "HK");
    assert_eq!(parse_country_code("JPN Server").unwrap().alpha2, "JP");
    assert_eq!(parse_country_code("KOR Node").unwrap().alpha2, "KR");
    assert_eq!(parse_country_code("SGP Vip").unwrap().alpha2, "SG");
    assert_eq!(parse_country_code("TWN Server").unwrap().alpha2, "TW");
    assert_eq!(parse_country_code("GBR Node").unwrap().alpha2, "GB");
    assert_eq!(parse_country_code("DEU Vip").unwrap().alpha2, "DE");
    assert_eq!(parse_country_code("FRA Server").unwrap().alpha2, "FR");
}

#[test]
fn test_fuzzy_matching() {
    assert_eq!(parse_country_code("United States Node").unwrap().alpha2, "US");
    assert_eq!(parse_country_code("China Server").unwrap().alpha2, "CN");
    assert_eq!(parse_country_code("Hong Kong Service").unwrap().alpha2, "HK");
    assert_eq!(parse_country_code("Japan Node").unwrap().alpha2, "JP");
    assert_eq!(parse_country_code("South Korea Server").unwrap().alpha2, "KR");
    assert_eq!(parse_country_code("Singapore Service").unwrap().alpha2, "SG");
    assert_eq!(parse_country_code("Taiwan Node").unwrap().alpha2, "TW");
    assert_eq!(parse_country_code("United Kingdom Server").unwrap().alpha2, "GB");
    assert_eq!(parse_country_code("Germany Service").unwrap().alpha2, "DE");
    assert_eq!(parse_country_code("France Node").unwrap().alpha2, "FR");
}

#[test]
fn parser_tests_test_mixed_patterns() {
    assert_eq!(parse_country_code("@HK Vip1").unwrap().alpha2, "HK");
    assert_eq!(parse_country_code("【SS】US1").unwrap().alpha2, "US");
    assert_eq!(parse_country_code("V1 美国").unwrap().alpha2, "US");
    assert_eq!(parse_country_code("#CN2").unwrap().alpha2, "CN");
    assert_eq!(parse_country_code("@JP 节点").unwrap().alpha2, "JP");
    assert_eq!(parse_country_code("【KR】Server").unwrap().alpha2, "KR");
    assert_eq!(parse_country_code("[SG] Vip").unwrap().alpha2, "SG");
    assert_eq!(parse_country_code("#TW 节点").unwrap().alpha2, "TW");
    assert_eq!(parse_country_code("GB VIP").unwrap().alpha2, "GB");
    assert_eq!(parse_country_code("DE 节点").unwrap().alpha2, "DE");
    assert_eq!(parse_country_code("FR Node").unwrap().alpha2, "FR");
    assert_eq!(parse_country_code("【测试】US-123-节点").unwrap().alpha2, "US");
    assert_eq!(parse_country_code("@CN-456-Server").unwrap().alpha2, "CN");
    assert_eq!(parse_country_code("[HK#789]VIP").unwrap().alpha2, "HK");
    assert_eq!(parse_country_code("#JP_123_节点").unwrap().alpha2, "JP");
    assert_eq!(parse_country_code("【KR-456】Server").unwrap().alpha2, "KR");
}

#[test]
fn parser_tests_test_case_insensitive() {
    assert_eq!(parse_country_code("us node").unwrap().alpha2, "US");
    assert_eq!(parse_country_code("cn server").unwrap().alpha2, "CN");
    assert_eq!(parse_country_code("hk vip").unwrap().alpha2, "HK");
    assert_eq!(parse_country_code("United States").unwrap().alpha2, "US");
    assert_eq!(parse_country_code("china").unwrap().alpha2, "CN");
    assert_eq!(parse_country_code("HONG KONG").unwrap().alpha2, "HK");
}

#[test]
fn parser_tests_test_complex_title_formats() {
    assert_eq!(parse_country_code("【游戏加速】US-纽约-01节点").unwrap().alpha2, "US");
    assert_eq!(parse_country_code("@CN-北京-电信-02服务器").unwrap().alpha2, "CN");
    assert_eq!(parse_country_code("[HK-香港-移动]VIP03").unwrap().alpha2, "HK");
    assert_eq!(parse_country_code("#JP-东京-联通-04节点").unwrap().alpha2, "JP");
    assert_eq!(parse_country_code("【测试【US】测试】05服务器").unwrap().alpha2, "US");
    assert_eq!(parse_country_code("@[CN]#06VIP").unwrap().alpha2, "CN");
    assert_eq!(parse_country_code("[[[HK]]]07节点").unwrap().alpha2, "HK");
    assert_eq!(parse_country_code("US,纽约,08号节点").unwrap().alpha2, "US");
    assert_eq!(parse_country_code("CN：北京；09号服务器").unwrap().alpha2, "CN");
    assert_eq!(parse_country_code("HK-香港-10号-VIP").unwrap().alpha2, "HK");
}

#[test]
fn parser_tests_test_multiple_country_mentions() {
    let result1 = parse_country_code("US转CN节点");
    assert!(result1.is_ok());
    let result2 = parse_country_code("CN到JP服务器");
    assert!(result2.is_ok());
    let result3 = parse_country_code("从HK到US的VIP");
    assert!(result3.is_ok());
    let result4 = parse_country_code("【KR】和【JP】的对比");
    assert!(result4.is_ok());
}

#[test]
fn parser_tests_test_edge_cases() {
    assert_eq!(parse_country_code("US").unwrap().alpha2, "US");
    assert_eq!(parse_country_code("美国").unwrap().alpha2, "US");
    assert_eq!(parse_country_code("United States").unwrap().alpha2, "US");
    assert_eq!(parse_country_code("JP").unwrap().alpha2, "JP");
    assert_eq!(parse_country_code("日本").unwrap().alpha2, "JP");
    assert_eq!(parse_country_code("Japan").unwrap().alpha2, "JP");
    assert_eq!(parse_country_code("KR").unwrap().alpha2, "KR");
    assert_eq!(parse_country_code("韩国").unwrap().alpha2, "KR");
    assert_eq!(parse_country_code("South Korea").unwrap().alpha2, "KR");
    assert_eq!(parse_country_code("SG").unwrap().alpha2, "SG");
    assert_eq!(parse_country_code("新加坡").unwrap().alpha2, "SG");
    assert_eq!(parse_country_code("Singapore").unwrap().alpha2, "SG");
    assert_eq!(parse_country_code("US1").unwrap().alpha2, "US");
    assert_eq!(parse_country_code("CN2").unwrap().alpha2, "CN");
    assert_eq!(parse_country_code("JP3").unwrap().alpha2, "JP");
    assert_eq!(parse_country_code("KR4").unwrap().alpha2, "KR");
    assert_eq!(parse_country_code("SG5").unwrap().alpha2, "SG");
    // a digit inside the letter run breaks the code apart, and no stage —
    // the fuzzy fallback included — sees any country signal in what is left
    assert!(parse_country_code("U1S节点").is_err());
    assert!(parse_country_code("C2N服务器").is_err());
    assert!(parse_country_code("H3KVIP").is_err());
}

#[test]
fn parser_tests_test_error_cases() {
    assert!(parse_country_code("未知国家").is_err());
    assert!(parse_country_code("").is_err());
    assert!(parse_country_code("普通标题").is_err());
    assert!(parse_country_code("@@##$$").is_err());
    assert!(parse_country_code("XYZ").is_err());
    assert!(parse_country_code("12345").is_err());
    assert!(parse_country_code("   ").is_err());
    // name matching is containment, so trailing text after a full name
    // still resolves
    assert_eq!(parse_country_code("美国的").unwrap().alpha2, "US");
    // the code stages reject a code embedded in a longer alphabetic run,
    // but under the default settings the fuzzy fallback still resolves the
    // one contained code
    assert_eq!(parse_country_code("useful").unwrap().alpha2, "US");
    // no registry code or name is contained here at all
    assert!(parse_country_code("cannot").is_err());
    let long_text = "a".repeat(1025);
    assert!(parse_country_code(&long_text).is_err());
}
