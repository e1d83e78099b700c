use debtmap_tui::detail_page::DetailPage;

const ALL: [DetailPage; 7] = [
    DetailPage::Overview,
    DetailPage::ScoreBreakdown,
    DetailPage::Dependencies,
    DetailPage::GitContext,
    DetailPage::Patterns,
    DetailPage::DataFlow,
    DetailPage::Responsibilities,
];

#[test]
fn test_detail_page_next_wraps_forward() {
    assert_eq!(DetailPage::Overview.next(), DetailPage::ScoreBreakdown);
    assert_eq!(DetailPage::ScoreBreakdown.next(), DetailPage::Dependencies);
    assert_eq!(DetailPage::Dependencies.next(), DetailPage::GitContext);
    assert_eq!(DetailPage::GitContext.next(), DetailPage::Patterns);
    assert_eq!(DetailPage::Patterns.next(), DetailPage::DataFlow);
    assert_eq!(DetailPage::DataFlow.next(), DetailPage::Responsibilities);
    assert_eq!(DetailPage::Responsibilities.next(), DetailPage::Overview);
}

#[test]
fn test_detail_page_prev_wraps_backward() {
    assert_eq!(DetailPage::Overview.prev(), DetailPage::Responsibilities);
    assert_eq!(DetailPage::ScoreBreakdown.prev(), DetailPage::Overview);
    assert_eq!(DetailPage::Dependencies.prev(), DetailPage::ScoreBreakdown);
    assert_eq!(DetailPage::GitContext.prev(), DetailPage::Dependencies);
    assert_eq!(DetailPage::Patterns.prev(), DetailPage::GitContext);
    assert_eq!(DetailPage::DataFlow.prev(), DetailPage::Patterns);
    assert_eq!(DetailPage::Responsibilities.prev(), DetailPage::DataFlow);
}

#[test]
fn test_detail_page_from_index() {
    assert_eq!(DetailPage::from_index(0), Some(DetailPage::Overview));
    assert_eq!(DetailPage::from_index(1), Some(DetailPage::ScoreBreakdown));
    assert_eq!(DetailPage::from_index(2), Some(DetailPage::Dependencies));
    assert_eq!(DetailPage::from_index(3), Some(DetailPage::GitContext));
    assert_eq!(DetailPage::from_index(4), Some(DetailPage::Patterns));
    assert_eq!(DetailPage::from_index(5), Some(DetailPage::DataFlow));
    assert_eq!(DetailPage::from_index(6), Some(DetailPage::Responsibilities));
    assert_eq!(DetailPage::from_index(7), None);
}

#[test]
fn test_detail_page_index() {
    assert_eq!(DetailPage::Overview.index(), 0);
    assert_eq!(DetailPage::ScoreBreakdown.index(), 1);
    assert_eq!(DetailPage::Dependencies.index(), 2);
    assert_eq!(DetailPage::GitContext.index(), 3);
    assert_eq!(DetailPage::Patterns.index(), 4);
    assert_eq!(DetailPage::DataFlow.index(), 5);
    assert_eq!(DetailPage::Responsibilities.index(), 6);
}

#[test]
fn test_detail_page_name() {
    assert_eq!(DetailPage::Overview.name(), "Overview");
    assert_eq!(DetailPage::ScoreBreakdown.name(), "Score Breakdown");
    assert_eq!(DetailPage::Dependencies.name(), "Dependencies");
    assert_eq!(DetailPage::GitContext.name(), "Git Context");
    assert_eq!(DetailPage::Patterns.name(), "Patterns");
    assert_eq!(DetailPage::DataFlow.name(), "Data Flow");
    assert_eq!(DetailPage::Responsibilities.name(), "Responsibilities");
}

#[test]
fn test_next_prev_inverse() {
    for page in ALL {
        assert_eq!(page.next().prev(), page);
        assert_eq!(page.prev().next(), page);
    }
}

#[test]
fn test_index_from_index_roundtrip() {
    for page in ALL {
        assert_eq!(DetailPage::from_index(page.index()), Some(page));
    }
}

#[test]
fn seven_nexts_return_to_the_start() {
    for page in ALL {
        let mut p = page;
        for _ in 0..DetailPage::COUNT {
            p = p.next();
        }
        assert_eq!(p, page);
    }
}
