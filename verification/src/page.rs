//! The index page: one card and one viewer script call per stream.
//!
//! The page is fixed text around the stream names. A card shows the name as
//! it was registered and carries its lowercase form in the ids of its
//! elements; the script at the end opens one connection per stream.

use vstd::prelude::*;
use crate::text::{lowercase, to_lowercase};

verus! {

/// The page up to the first card.
pub const PAGE_HEAD: &'static str = r#"
    <!DOCTYPE html>
    <html>
    <head>
        <title>CCTV Surveillance System</title>
        <meta name="viewport" content="width=device-width, initial-scale=1.0">
        <style>
            body {
                font-family: 'Segoe UI', Tahoma, Geneva, Verdana, sans-serif;
                margin: 0;
                padding: 0;
                background-color: #1e1e1e;
                color: #e0e0e0;
                overflow: hidden;
            }
            .header {
                background-color: #333;
                color: white;
                padding: 10px 20px;
                display: flex;
                justify-content: space-between;
                align-items: center;
                border-bottom: 1px solid #444;
            }
            .header h1 {
                margin: 0;
                font-size: 18px;
                font-weight: 500;
            }
            .datetime {
                font-size: 14px;
                text-align: right;
            }
            .container {
                display: grid;
                grid-template-columns: repeat(3, 1fr);
                gap: 8px;
                padding: 8px;
                height: calc(100vh - 60px);
            }
            .stream {
                background: #2a2a2a;
                border-radius: 4px;
                overflow: hidden;
                position: relative;
                box-shadow: 0 2px 4px rgba(0,0,0,0.3);
            }
            .stream-header {
                background: rgba(0,0,0,0.7);
                color: white;
                padding: 5px 10px;
                position: absolute;
                top: 0;
                left: 0;
                right: 0;
                z-index: 10;
                display: flex;
                justify-content: space-between;
                font-size: 12px;
            }
            .stream-name {
                font-weight: bold;
            }
            .status {
                display: flex;
                align-items: center;
            }
            .status-dot {
                height: 8px;
                width: 8px;
                border-radius: 50%;
                background-color: #4CAF50;
                margin-right: 5px;
            }
            .status-text {
                font-size: 11px;
            }
            canvas {
                width: 100%;
                height: 100%;
                background: #000;
                display: block;
                object-fit: cover;
            }
            .stream-footer {
                background: rgba(0,0,0,0.7);
                color: white;
                padding: 5px 10px;
                position: absolute;
                bottom: 0;
                left: 0;
                right: 0;
                z-index: 10;
                display: flex;
                justify-content: space-between;
                font-size: 11px;
            }
            .controls {
                position: absolute;
                top: 50%;
                left: 50%;
                transform: translate(-50%, -50%);
                display: flex;
                gap: 10px;
                opacity: 0;
                transition: opacity 0.3s;
                z-index: 5;
            }
            .stream:hover .controls {
                opacity: 1;
            }
            .control-btn {
                width: 36px;
                height: 36px;
                border-radius: 50%;
                background: rgba(0,0,0,0.7);
                border: 1px solid rgba(255,255,255,0.3);
                color: white;
                display: flex;
                align-items: center;
                justify-content: center;
                cursor: pointer;
            }
            .control-btn:hover {
                background: rgba(0,0,0,0.9);
            }
            .toolbar {
                position: fixed;
                bottom: 0;
                left: 0;
                right: 0;
                background: #333;
                padding: 5px 10px;
                display: flex;
                justify-content: center;
                gap: 20px;
                border-top: 1px solid #444;
            }
            .toolbar-btn {
                background: transparent;
                border: none;
                color: #ddd;
                cursor: pointer;
                padding: 5px 10px;
                font-size: 13px;
                display: flex;
                align-items: center;
                gap: 5px;
            }
            .toolbar-btn:hover {
                color: white;
                background: #444;
                border-radius: 3px;
            }
            .stats {
                position: absolute;
                bottom: 25px;
                right: 10px;
                background: rgba(0,0,0,0.5);
                color: #aaa;
                font-size: 10px;
                padding: 2px 5px;
                border-radius: 3px;
                z-index: 15;
            }
            svg {
                width: 16px;
                height: 16px;
                fill: currentColor;
            }
            .control-btn svg {
                width: 20px;
                height: 20px;
            }
        </style>
    </head>
    <body>
        <div class="header">
            <h1>CCTV Surveillance System</h1>
            <div class="datetime" id="datetime">Loading...</div>
        </div>
        <div class="container">
    "#;

/// A card up to the stream's name in its header.
pub const CARD_OPEN: &'static str = r#"
            <div class="stream">
                <div class="stream-header">
                    <div class="stream-name">"#;

/// From the name in the header to the id of the canvas.
pub const CARD_CANVAS: &'static str = r#"</div>
                    <div class="status">
                        <div class="status-dot"></div>
                        <div class="status-text">LIVE</div>
                    </div>
                </div>
                <canvas id="canvas-"#;

/// From the id of the canvas to the id of the frame-rate field.
pub const CARD_RATE: &'static str = r#"" width="640" height="360"></canvas>
                <div class="stream-footer">
                    <div class="fps" id="fps-"#;

/// From the id of the frame-rate field to the name in the footer.
pub const CARD_LOCATION: &'static str = r#"">0 FPS</div>
                    <div class="location">"#;

/// From the name in the footer to the id of the statistics field.
pub const CARD_STATS: &'static str = r#"</div>
                </div>
                <div class="controls">
                    <div class="control-btn">
                        <svg viewBox="0 0 24 24">
                            <path d="M17.65,6.35C16.2,4.9 14.21,4 12,4A8,8 0 0,0 4,12A8,8 0 0,0 12,20C15.73,20 18.84,17.45 19.73,14H17.65C16.83,16.33 14.61,18 12,18A6,6 0 0,1 6,12A6,6 0 0,1 12,6C13.66,6 15.14,6.69 16.22,7.78L13,11H20V4L17.65,6.35Z" />
                        </svg>
                    </div>
                    <div class="control-btn">
                        <svg viewBox="0 0 24 24">
                            <path d="M14,19H18V5H14M6,19H10V5H6V19Z" />
                        </svg>
                    </div>
                    <div class="control-btn">
                        <svg viewBox="0 0 24 24">
                            <path d="M12,15.5A3.5,3.5 0 0,1 8.5,12A3.5,3.5 0 0,1 12,8.5A3.5,3.5 0 0,1 15.5,12A3.5,3.5 0 0,1 12,15.5M19.43,12.97C19.47,12.65 19.5,12.33 19.5,12C19.5,11.67 19.47,11.34 19.43,11L21.54,9.37C21.73,9.22 21.78,8.95 21.66,8.73L19.66,5.27C19.54,5.05 19.27,4.96 19.05,5.05L16.56,6.05C16.04,5.66 15.5,5.32 14.87,5.07L14.5,2.42C14.46,2.18 14.25,2 14,2H10C9.75,2 9.54,2.18 9.5,2.42L9.13,5.07C8.5,5.32 7.96,5.66 7.44,6.05L4.95,5.05C4.73,4.96 4.46,5.05 4.34,5.27L2.34,8.73C2.21,8.95 2.27,9.22 2.46,9.37L4.57,11C4.53,11.34 4.5,11.67 4.5,12C4.5,12.33 4.53,12.65 4.57,12.97L2.46,14.63C2.27,14.78 2.21,15.05 2.34,15.27L4.34,18.73C4.46,18.95 4.73,19.03 4.95,18.95L7.44,17.94C7.96,18.34 8.5,18.68 9.13,18.93L9.5,21.58C9.54,21.82 9.75,22 10,22H14C14.25,22 14.46,21.82 14.5,21.58L14.87,18.93C15.5,18.67 16.04,18.34 16.56,17.94L19.05,18.95C19.27,19.03 19.54,18.95 19.66,18.73L21.66,15.27C21.78,15.05 21.73,14.78 21.54,14.63L19.43,12.97Z" />
                        </svg>
                    </div>
                </div>
                <div class="stats" id="stats-"#;

/// The end of a card.
pub const CARD_CLOSE: &'static str = r#""></div>
            </div>
        "#;

/// From the last card to the first call of the viewer script.
pub const PAGE_SCRIPT: &'static str = r#"
        </div>
        <div class="toolbar">
            <button class="toolbar-btn">
                <svg viewBox="0 0 24 24">
                    <path d="M12,20A8,8 0 0,1 4,12A8,8 0 0,1 12,4A8,8 0 0,1 20,12A8,8 0 0,1 12,20M12,2A10,10 0 0,0 2,12A10,10 0 0,0 12,22A10,10 0 0,0 22,12A10,10 0 0,0 12,2M12,12.5A1.5,1.5 0 0,1 10.5,11A1.5,1.5 0 0,1 12,9.5A1.5,1.5 0 0,1 13.5,11A1.5,1.5 0 0,1 12,12.5M12,7.2C9.9,7.2 8.2,8.9 8.2,11C8.2,14 12,17.5 12,17.5C12,17.5 15.8,14 15.8,11C15.8,8.9 14.1,7.2 12,7.2Z" />
                </svg>
                Record
            </button>
            <button class="toolbar-btn">
                <svg viewBox="0 0 24 24">
                    <path d="M4,4H7L9,2H15L17,4H20A2,2 0 0,1 22,6V18A2,2 0 0,1 20,20H4A2,2 0 0,1 2,18V6A2,2 0 0,1 4,4M12,7A5,5 0 0,0 7,12A5,5 0 0,0 12,17A5,5 0 0,0 17,12A5,5 0 0,0 12,7M12,9A3,3 0 0,1 15,12A3,3 0 0,1 12,15A3,3 0 0,1 9,12A3,3 0 0,1 12,9Z" />
                </svg>
                Snapshot
            </button>
            <button class="toolbar-btn">
                <svg viewBox="0 0 24 24">
                    <path d="M12,15.5A3.5,3.5 0 0,1 8.5,12A3.5,3.5 0 0,1 12,8.5A3.5,3.5 0 0,1 15.5,12A3.5,3.5 0 0,1 12,15.5M19.43,12.97C19.47,12.65 19.5,12.33 19.5,12C19.5,11.67 19.47,11.34 19.43,11L21.54,9.37C21.73,9.22 21.78,8.95 21.66,8.73L19.66,5.27C19.54,5.05 19.27,4.96 19.05,5.05L16.56,6.05C16.04,5.66 15.5,5.32 14.87,5.07L14.5,2.42C14.46,2.18 14.25,2 14,2H10C9.75,2 9.54,2.18 9.5,2.42L9.13,5.07C8.5,5.32 7.96,5.66 7.44,6.05L4.95,5.05C4.73,4.96 4.46,5.05 4.34,5.27L2.34,8.73C2.21,8.95 2.27,9.22 2.46,9.37L4.57,11C4.53,11.34 4.5,11.67 4.5,12C4.5,12.33 4.53,12.65 4.57,12.97L2.46,14.63C2.27,14.78 2.21,15.05 2.34,15.27L4.34,18.73C4.46,18.95 4.73,19.03 4.95,18.95L7.44,17.94C7.96,18.34 8.5,18.68 9.13,18.93L9.5,21.58C9.54,21.82 9.75,22 10,22H14C14.25,22 14.46,21.82 14.5,21.58L14.87,18.93C15.5,18.67 16.04,18.34 16.56,17.94L19.05,18.95C19.27,19.03 19.54,18.95 19.66,18.73L21.66,15.27C21.78,15.05 21.73,14.78 21.54,14.63L19.43,12.97Z" />
                </svg>
                Settings
            </button>
            <button class="toolbar-btn" id="fullscreen-btn">
                <svg viewBox="0 0 24 24">
                    <path d="M5,5H10V7H7V10H5V5M14,5H19V10H17V7H14V5M17,14H19V19H14V17H17V14M10,17V19H5V14H7V17H10Z" />
                </svg>
                Full Screen
            </button>
            <button class="toolbar-btn">
                <svg viewBox="0 0 24 24">
                    <path d="M9.5,3A6.5,6.5 0 0,1 16,9.5C16,11.11 15.41,12.59 14.44,13.73L14.71,14H15.5L20.5,19L19,20.5L14,15.5V14.71L13.73,14.44C12.59,15.41 11.11,16 9.5,16A6.5,6.5 0 0,1 3,9.5A6,6,0 0,1 9.5,3M9.5,5C7,5 5,7 5,9.5C5,12 7,14 9.5,14C12,14 14,12 14,9.5C14,7 12,5 9.5,5Z" />
                </svg>
                Search
            </button>
        </div>
    
        <script>
            function updateDateTime() {
                const now = new Date();
                const dateString = now.toLocaleDateString();
                const timeString = now.toLocaleTimeString();
                document.getElementById('datetime').textContent = `${dateString} ${timeString}`;
            }
            
            setInterval(updateDateTime, 1000);
            updateDateTime();
            
            function setupStream(streamName) {
                const canvas = document.getElementById('canvas-' + streamName.toLowerCase());
                const ctx = canvas.getContext('2d');
                const stats = document.getElementById('stats-' + streamName.toLowerCase());
                const fpsElement = document.getElementById('fps-' + streamName.toLowerCase());
                const statusDot = canvas.parentElement.querySelector('.status-dot');
                
                ctx.fillStyle = 'black';
                ctx.fillRect(0, 0, canvas.width, canvas.height);
                
                ctx.fillStyle = 'white';
                ctx.font = '16px Arial';
                ctx.textAlign = 'center';
                ctx.fillText('Connecting to ' + streamName + '...', canvas.width/2, canvas.height/2);
                
                let frameCount = 0;
                let lastTime = Date.now();
                let fps = 0;
                
                const ws = new WebSocket('ws://' + window.location.host + '/ws/' + streamName.toLowerCase());
                
                ws.binaryType = 'arraybuffer';
                
                ws.onopen = function() {
                    console.log('Connected to ' + streamName);
                    stats.textContent = 'Connected';
                    statusDot.style.backgroundColor = '#4CAF50';
                };
                
                ws.onmessage = function(event) {
                    frameCount++;
                    const now = Date.now();
                    if (now - lastTime >= 1000) {
                        fps = frameCount;
                        frameCount = 0;
                        lastTime = now;
                        fpsElement.textContent = fps + ' FPS';
                    }
                    
                    stats.textContent = `${(event.data.byteLength / 1024).toFixed(1)} KB`;
                    
                    const blob = new Blob([event.data], {type: 'image/jpeg'});
                    const url = URL.createObjectURL(blob);
                    const img = new Image();
                    
                    img.onload = function() {
                        ctx.drawImage(img, 0, 0, canvas.width, canvas.height);
                        URL.revokeObjectURL(url);
                    };
                    
                    img.onerror = function(err) {
                        console.error(`Error loading image for ${streamName}:`, err);
                        statusDot.style.backgroundColor = 'red';
                    };
                    
                    img.src = url;
                };
                
                ws.onclose = function() {
                    console.log('Disconnected from ' + streamName);
                    statusDot.style.backgroundColor = '#FF9800';
                    
                    ctx.fillStyle = 'black';
                    ctx.fillRect(0, 0, canvas.width, canvas.height);
                    ctx.fillStyle = 'red';
                    ctx.font = '16px Arial';
                    ctx.textAlign = 'center';
                    ctx.fillText('Connection lost. Reconnecting...', canvas.width/2, canvas.height/2);
                    
                    setTimeout(() => setupStream(streamName), 5000);
                };
                
                ws.onerror = function(err) {
                    console.error('WebSocket Error for ' + streamName + ':', err);
                    statusDot.style.backgroundColor = 'red';
                };
                
                canvas.addEventListener('dblclick', function() {
                    if (!document.fullscreenElement) {
                        canvas.parentElement.requestFullscreen().catch(err => {
                            console.error(`Could not enter fullscreen: ${err.message}`);
                        });
                    } else {
                        document.exitFullscreen();
                    }
                });
            }
            
    "#;

/// A call of the viewer script up to the stream's name.
pub const CALL_OPEN: &'static str = "            setupStream('";

/// The end of a call of the viewer script.
pub const CALL_CLOSE: &'static str = "');\n";

/// The page after the last call of the viewer script.
pub const PAGE_TAIL: &'static str = r#"
            document.getElementById('fullscreen-btn').addEventListener('click', function() {
                if (!document.fullscreenElement) {
                    document.documentElement.requestFullscreen().catch(err => {
                        console.error(`Could not enter fullscreen: ${err.message}`);
                    });
                } else {
                    document.exitFullscreen();
                }
            });
        </script>
    </body>
    </html>
    "#;

/// The texts of `names`, in the same order.
pub open spec fn texts(names: Seq<String>) -> Seq<Seq<char>> {
    Seq::new(names.len(), |i: int| names[i]@)
}

/// The card of the stream named `name`.
pub open spec fn card_text(name: Seq<char>) -> Seq<char> {
    CARD_OPEN@ + name + CARD_CANVAS@ + lowercase(name) + CARD_RATE@ + lowercase(name)
        + CARD_LOCATION@ + name + CARD_STATS@ + lowercase(name) + CARD_CLOSE@
}

/// The cards of `names`, in the same order.
pub open spec fn cards_text(names: Seq<Seq<char>>) -> Seq<char>
    decreases names.len(),
{
    if names.len() == 0 {
        Seq::empty()
    } else {
        cards_text(names.drop_last()) + card_text(names.last())
    }
}

/// The script call that opens the viewer of the stream named `name`.
pub open spec fn call_text(name: Seq<char>) -> Seq<char> {
    CALL_OPEN@ + name + CALL_CLOSE@
}

/// The script calls of `names`, in the same order.
pub open spec fn calls_text(names: Seq<Seq<char>>) -> Seq<char>
    decreases names.len(),
{
    if names.len() == 0 {
        Seq::empty()
    } else {
        calls_text(names.drop_last()) + call_text(names.last())
    }
}

/// The whole page for `names`.
pub open spec fn page_text(names: Seq<Seq<char>>) -> Seq<char> {
    PAGE_HEAD@ + cards_text(names) + PAGE_SCRIPT@ + calls_text(names) + PAGE_TAIL@
}

/// Appends the card of the stream named `name` to `page`.
fn push_card(page: &mut String, name: &str)
    ensures
        final(page)@ == old(page)@ + card_text(name@),
{
    let lower = to_lowercase(name);
    page.append(CARD_OPEN);
    page.append(name);
    page.append(CARD_CANVAS);
    page.append(lower.as_str());
    page.append(CARD_RATE);
    page.append(lower.as_str());
    page.append(CARD_LOCATION);
    page.append(name);
    page.append(CARD_STATS);
    page.append(lower.as_str());
    page.append(CARD_CLOSE);
    assert(page@ =~= old(page)@ + card_text(name@));
}

/// Appends the script call for the stream named `name` to `page`.
fn push_call(page: &mut String, name: &str)
    ensures
        final(page)@ == old(page)@ + call_text(name@),
{
    page.append(CALL_OPEN);
    page.append(name);
    page.append(CALL_CLOSE);
    assert(page@ =~= old(page)@ + call_text(name@));
}

/// The index page that shows the streams `stream_names`, in that order.
pub fn index_page(stream_names: &[String]) -> (page: String)
    ensures
        page@ == page_text(texts(stream_names@)),
{
    let ghost names = texts(stream_names@);
    let mut page = String::from_str(PAGE_HEAD);
    assert(names.take(0) =~= Seq::<Seq<char>>::empty());
    assert(page@ =~= PAGE_HEAD@ + cards_text(names.take(0)));
    let mut i: usize = 0;
    while i < stream_names.len()
        invariant
            names == texts(stream_names@),
            i <= stream_names@.len(),
            page@ == PAGE_HEAD@ + cards_text(names.take(i as int)),
        decreases stream_names@.len() - i,
    {
        push_card(&mut page, stream_names[i].as_str());
        proof {
            assert(names.take(i + 1).drop_last() =~= names.take(i as int));
            assert(names.take(i + 1).last() == stream_names@[i as int]@);
            assert(page@ =~= PAGE_HEAD@ + cards_text(names.take(i + 1)));
        }
        i = i + 1;
    }
    assert(names.take(i as int) =~= names);
    page.append(PAGE_SCRIPT);
    assert(page@ =~= PAGE_HEAD@ + cards_text(names) + PAGE_SCRIPT@ + calls_text(names.take(0)));
    let mut j: usize = 0;
    while j < stream_names.len()
        invariant
            names == texts(stream_names@),
            j <= stream_names@.len(),
            page@ == PAGE_HEAD@ + cards_text(names) + PAGE_SCRIPT@ + calls_text(
                names.take(j as int),
            ),
        decreases stream_names@.len() - j,
    {
        push_call(&mut page, stream_names[j].as_str());
        proof {
            assert(names.take(j + 1).drop_last() =~= names.take(j as int));
            assert(names.take(j + 1).last() == stream_names@[j as int]@);
            assert(page@ =~= PAGE_HEAD@ + cards_text(names) + PAGE_SCRIPT@ + calls_text(
                names.take(j + 1),
            ));
        }
        j = j + 1;
    }
    assert(names.take(j as int) =~= names);
    page.append(PAGE_TAIL);
    page
}

} // verus!
