use vstd::prelude::*;
use crate::text::push_str;

verus! {

const SCRIPT_PART_1: &'static str = r#"
<script>

    (function(){
        // Always allow posting messages to parent even if cross-origin
        // (postMessage doesn't require same-origin). We keep a flag in case
        // future logic needs to avoid parent access.
        let canAccessParent = !!(window.parent && window.parent !== window);

        // Intercept fullscreen errors and relay to parent for nested iframes (e.g., Twitter)
        // Since we can't intercept errors from cross-origin iframes directly,
        // we use multiple strategies: fullscreenerror events, unhandledrejection, and console.error proxy
        (function() {
            let fullscreenRequested = false;
            
            function relayFullscreenRequest() {
                if (!fullscreenRequested && canAccessParent) {
                    fullscreenRequested = true;
                    console.log('[Proxy] Relaying fullscreen request to parent');
                    window.parent.postMessage({ 
                        type: 'TWITTER_FULLSCREEN_REQUEST' 
                    }, '*');
                    // Reset flag after 2 seconds
                    setTimeout(function() {
                        fullscreenRequested = false;
                    }, 2000);
                }
            }
            
            // Listen for fullscreenerror events
            document.addEventListener('fullscreenerror', function(e) {
                console.log('[Proxy] Fullscreen error event caught');
                relayFullscreenRequest();
            });
            
            // Listen for unhandled promise rejections (Twitter might use promises)
            window.addEventListener('unhandledrejection', function(e) {
                const reason = e.reason;
                const errorMsg = reason && reason.message ? reason.message : String(reason);
                if (errorMsg.includes('InvalidStateError') || 
"#;

const SCRIPT_PART_2: &'static str = r#"                    (errorMsg.includes('fullscreen') && errorMsg.includes('embed'))) {
                    console.log('[Proxy] Unhandled rejection related to fullscreen:', errorMsg);
                    relayFullscreenRequest();
                }
            });
            
            // Proxy console.error to catch errors logged by Twitter
            const originalConsoleError = console.error;
            console.error = function(...args) {
                originalConsoleError.apply(console, args);
                const errorStr = args.join(' ');
                if (errorStr.includes('InvalidStateError') && 
                    (errorStr.includes('embed') || errorStr.includes('twitter'))) {
                    console.log('[Proxy] Console error detected related to fullscreen:', errorStr);
                    relayFullscreenRequest();
                }
            };
            
            // Also proxy window.onerror (though it may not catch cross-origin errors)
            const originalOnError = window.onerror;
            window.onerror = function(message, source, lineno, colno, error) {
                if (originalOnError) {
                    originalOnError.call(this, message, source, lineno, colno, error);
                }
                if (message && (message.includes('InvalidStateError') || 
                    (message.includes('fullscreen') && (source && source.includes('embed'))))) {
                    console.log('[Proxy] Window error detected related to fullscreen:', message);
                    relayFullscreenRequest();
                }
                return false; // Don't prevent default error handling
            };
        })();


        // Helper to scroll through the page to trigger lazy-loaded content
        function scrollToRevealContent() {
            return new Promise((resolve) => {
                let scrolls = 0;
                const maxScrolls = 15;
                const scrollDelay = 200;
"#;

const SCRIPT_PART_3: &'static str = r#"                
                function doScroll() {
                    scrolls++;
                    const currentHeight = document.documentElement.scrollHeight;
                    const viewportHeight = window.innerHeight;
                    const scrollPosition = window.scrollY + viewportHeight;
                    
                    // Scroll down by viewport height
                    window.scrollTo(0, scrollPosition);
                    
                    // Check if we've reached the bottom or max scrolls
                    if (scrollPosition >= currentHeight || scrolls >= maxScrolls) {
                        // Scroll back to top when done
                        window.scrollTo(0, 0);
                        resolve();
                    } else {
                        setTimeout(doScroll, scrollDelay);
                    }
                }
                
                doScroll();
            });
        }

        // Helper to send the rendered HTML back to the parent window.
        function sendRenderedHTML() {
            
            try {
                const html = document.documentElement.outerHTML;
                // send as a message; parent should verify origin/source
                window.parent.postMessage({ type: 'RENDERED_HTML', html: html }, '*');
            } catch (e) {
                // ignore
            }
        }

        // When the page finishes loading, scroll through it to reveal lazy content, then send.
        window.addEventListener('load', function() {
            // Allow initial page scripts to run
            setTimeout(async function() {
"#;

const SCRIPT_PART_4: &'static str = r#"                try {
                    await scrollToRevealContent();
                    // Give a moment for any final lazy-loaded content to settle
                    setTimeout(sendRenderedHTML, 800);
                } catch (e) {
                    // If scrolling fails, send anyway
                    sendRenderedHTML();
                }
            }, 500);
        });

        // Also observe DOM mutations and send after a short quiet period.
        try {
            let renderTimer = null;
            const mo = new MutationObserver(() => {
                if (renderTimer) clearTimeout(renderTimer);
                renderTimer = setTimeout(sendRenderedHTML, 800);
            });
            mo.observe(document, { childList: true, subtree: true, attributes: true, characterData: true });
        } catch (e) {
            // ignore if MutationObserver not available
        }

        // Allow parent to request an immediate snapshot
        window.addEventListener('message', (event) => {
            try {
                const { action } = event.data || {};
                if (action === 'REQUEST_RENDERED') {
                    // Scroll first, then send
                    scrollToRevealContent().then(() => {
                        setTimeout(sendRenderedHTML, 500);
                    }).catch(() => {
                        sendRenderedHTML();
                    });
                }
            } catch (e) {}
        });

        // Detect videos in the page and notify parent
        function detectVideos() {
"#;

const SCRIPT_PART_5: &'static str = r#"            try {
                const videos = document.querySelectorAll('video');
                console.log('[Proxy Injected Script] Found videos:', videos.length);
                
                if (videos.length > 0) {
                    const video = videos[0];
                    const source = video.querySelector('source');
                    const videoUrl = (source && source.src) || video.src || video.currentSrc;
                    
                    if (videoUrl) {
                        console.log('[Proxy Injected Script] Detected video URL:', videoUrl);
                        window.parent.postMessage({
                            type: 'VIDEO_DETECTED',
                            url: videoUrl
                        }, '*');
                    }
                }
            } catch (e) {
                console.error('[Proxy Injected Script] Error detecting videos:', e);
            }
        }

        // Style for per-video overlay button
        function ensureOverlayStyles() {
            if (document.getElementById('__proxy_video_styles__')) return;
            const style = document.createElement('style');
            style.id = '__proxy_video_styles__';
            style.textContent = `
                .__proxy_video_actions__{display:flex;gap:8px;margin-top:8px;}
                .__proxy_embed_wrapper__{position:relative;display:inline-block;width:100%;}
                .__proxy_btn__{background:rgba(0,0,0,0.7);color:#fff;border:2px solid rgba(255,255,255,0.8);border-radius:6px;padding:6px 10px;font-size:13px;font-weight:600;cursor:pointer;transition:background .15s;pointer-events:auto;z-index:2147483647;}
                .__proxy_btn__:hover{background:rgba(0,0,0,0.9);}
            `;
            document.head.appendChild(style);
        }

        // Add overlay FS button on each <video> and embedded iframes
        function installVideoOverlays() {
            try {
                ensureOverlayStyles();
"#;

const SCRIPT_PART_6: &'static str = r#"                
                // Handle videos
                const videos = document.querySelectorAll('video');
                videos.forEach((video) => {
                    if (video.dataset.__proxyOverlayInstalled__) return;
                    video.dataset.__proxyOverlayInstalled__ = 'true';

                    if (!video.hasAttribute('controls')) video.setAttribute('controls', 'controls');

                    // Insert actions directly after video (no wrapper to avoid layout shifts)
                    const actions = document.createElement('div');
                    actions.className='__proxy_video_actions__';

                    const fsBtn = document.createElement('button');
                    fsBtn.className='__proxy_btn__';
                    fsBtn.textContent='⤢ Fullscreen';
                    fsBtn.addEventListener('click', function(e){
                        e.preventDefault(); e.stopPropagation();
                        try { if (video && video.pause) video.pause(); } catch(_p) {}
                        let ct = 0; try { ct = (video && typeof video.currentTime === 'number') ? video.currentTime : 0; } catch(_e) { ct = 0; }
                        const source = video.querySelector('source');
                        const videoUrl = (source && source.src) || video.src || video.currentSrc || '';
                        
                        // Try direct fullscreen first (simpler, works if same-origin)
                        if (video.requestFullscreen) {
                            video.requestFullscreen().catch(function(err) {
                                // If direct fullscreen fails, use modal player
                                if (videoUrl) {
                                    window.parent.postMessage({ type: 'OPEN_VIDEO', url: videoUrl, currentTime: ct }, '*');
                                }
                            });
                        } else if (video.webkitRequestFullscreen) {
                            video.webkitRequestFullscreen();
                        } else if (videoUrl) {
                            // Fallback to modal player
                            window.parent.postMessage({ type: 'OPEN_VIDEO', url: videoUrl, currentTime: ct }, '*');
                        }
                    });
                    actions.appendChild(fsBtn);

"#;

const SCRIPT_PART_7: &'static str = r#"                    // Insert actions directly after video element
                    if (video.parentNode) {
                        video.parentNode.insertBefore(actions, video.nextSibling);
                    }

                    video.addEventListener('dblclick', function(e){
                        e.preventDefault(); e.stopPropagation();
                        // Try direct fullscreen
                        if (video.requestFullscreen) {
                            video.requestFullscreen().catch(function() {
                                // Fallback to parent iframe fullscreen
                                window.parent.postMessage({ type: 'TOGGLE_FULLSCREEN' }, '*');
                            });
                        } else if (video.webkitRequestFullscreen) {
                            video.webkitRequestFullscreen();
                        } else {
                            window.parent.postMessage({ type: 'TOGGLE_FULLSCREEN' }, '*');
                        }
                    }, { capture: true });
                });
                
                // Handle embedded iframes (Twitter, YouTube, etc.)
                // Collect all iframes to avoid duplicates (Twitter embeds can be in blockquotes)
                const processedIframes = new Set();
                
                // First, find iframes in Twitter blockquotes
                const twitterBlockquotes = document.querySelectorAll('blockquote.twitter-tweet, .twitter-tweet, blockquote[class*="twitter"], div[class*="twitter"]');
                twitterBlockquotes.forEach((blockquote) => {
                    const iframe = blockquote.querySelector('iframe');
                    if (iframe) {
                        processedIframes.add(iframe);
                        blockquote.dataset.__proxyFullscreenInstalled__ = 'true';
                    }
                });
                
                // Then find all other embed iframes
                const allEmbeds = document.querySelectorAll('iframe[src*="twitter"], iframe[src*="youtube"], iframe[src*="youtu.be"], iframe[src*="vimeo"], iframe[src*="dailymotion"], iframe[src*="instagram"], iframe[src*="tiktok"]');
                allEmbeds.forEach((iframe) => {
                    if (processedIframes.has(iframe)) return;
                    processedIframes.add(iframe);
"#;

const SCRIPT_PART_8: &'static str = r#"                });
                
                // Process all collected iframes
                processedIframes.forEach((iframe) => {
                    if (iframe.dataset.__proxyFullscreenInstalled__) return;
                    iframe.dataset.__proxyFullscreenInstalled__ = 'true';
                    
                    // Check if this is a Twitter iframe
                    const isTwitter = iframe.src && iframe.src.includes('platform.twitter.com');
                    
                    // Ensure iframe can go fullscreen (essential for native controls)
                    iframe.setAttribute('allowfullscreen', '');
                    iframe.setAttribute('webkitallowfullscreen', '');
                    iframe.setAttribute('mozallowfullscreen', '');
                    iframe.setAttribute('allow', 'fullscreen; autoplay; encrypted-media; picture-in-picture');
                    
                    // For Twitter: add a custom fullscreen button since native button fails due to nested iframe restrictions
                    // The native Twitter fullscreen button tries to fullscreen from within a cross-origin iframe,
                    // which fails with InvalidStateError due to browser security restrictions
                    if (isTwitter) {
                        console.log('[Proxy] Twitter embed detected, adding custom fullscreen button');
                        
                        // Find or create container
                        let container = iframe.parentElement;
                        let needsWrapper = true;
                        
                        // Check if already in a suitable container (blockquote for Twitter)
                        while (container && container !== document.body) {
                            if (container.tagName === 'BLOCKQUOTE' ||
                                container.classList.contains('twitter-tweet')) {
                                needsWrapper = false;
                                if (window.getComputedStyle(container).position === 'static') {
                                    container.style.position = 'relative';
                                }
                                break;
                            }
                            if (container.classList.contains('__proxy_twitter_wrapper__')) {
                                needsWrapper = false;
                                break;
                            }
"#;

const SCRIPT_PART_9: &'static str = r#"                            container = container.parentElement;
                        }
                        
                        if (needsWrapper) {
                            container = document.createElement('div');
                            container.className = '__proxy_twitter_wrapper__';
                            container.style.position = 'relative';
                            container.style.display = 'inline-block';
                            iframe.parentNode.insertBefore(container, iframe);
                            container.appendChild(iframe);
                        }
                        
                        // Add fullscreen button if not already present
                        if (!container.querySelector('.__proxy_twitter_fs_btn__')) {
                            const fsBtn = document.createElement('button');
                            fsBtn.className = '__proxy_twitter_fs_btn__';
                            fsBtn.innerHTML = '⤢';
                            fsBtn.setAttribute('aria-label', 'Fullscreen');
                            fsBtn.style.cssText = 'position:absolute;top:8px;right:8px;z-index:10000;pointer-events:auto;cursor:pointer;background:rgba(29,161,242,0.85);color:white;border:none;padding:6px 10px;border-radius:4px;font-size:14px;font-weight:bold;line-height:1;box-shadow:0 2px 4px rgba(0,0,0,0.2);transition:background 0.2s;';
                            fsBtn.addEventListener('mouseenter', function() {
                                this.style.background = 'rgba(29,161,242,1)';
                            });
                            fsBtn.addEventListener('mouseleave', function() {
                                this.style.background = 'rgba(29,161,242,0.85)';
                            });
                            fsBtn.addEventListener('click', function(e){
                                e.preventDefault(); 
                                e.stopPropagation();
                                console.log('[Proxy] Twitter custom fullscreen button clicked');
                                window.parent.postMessage({ 
                                    type: 'TWITTER_FULLSCREEN_REQUEST' 
                                }, '*');
                            });
                            container.appendChild(fsBtn);
                        }
                        
                        return; // Skip the generic embed button logic below
                    }
                    
                    // For other embeds (YouTube, Vimeo, etc.): add our button
"#;

const SCRIPT_PART_10: &'static str = r#"                    // Find container (may be a blockquote or need a wrapper)
                    let container = iframe.parentElement;
                    let needsWrapper = true;
                    
                    // Check if already in a suitable container (blockquote for Twitter)
                    while (container && container !== document.body) {
                        if (container.tagName === 'BLOCKQUOTE' ||
                            container.classList.contains('twitter-tweet')) {
                            needsWrapper = false;
                            // Ensure it's positioned relatively for button positioning
                            if (window.getComputedStyle(container).position === 'static') {
                                container.style.position = 'relative';
                            }
                            break;
                        }
                        if (container.classList.contains('__proxy_embed_wrapper__')) {
                            needsWrapper = false;
                            break;
                        }
                        container = container.parentElement;
                    }
                    
                    if (needsWrapper) {
                        container = document.createElement('div');
                        container.className = '__proxy_embed_wrapper__';
                        container.style.position = 'relative';
                        container.style.display = 'inline-block';
                        iframe.parentNode.insertBefore(container, iframe);
                        container.appendChild(iframe);
                    }
                    
                    // Add fullscreen button if not already present (only for non-Twitter embeds)
                    if (!container.querySelector('.__proxy_embed_btn__')) {
                        const fsBtn = document.createElement('button');
                        fsBtn.className = '__proxy_embed_btn__';
                        fsBtn.textContent = '⤢ Fullscreen';
                        fsBtn.style.position = 'absolute';
                        fsBtn.style.bottom = '8px';
                        fsBtn.style.right = '8px';
                        fsBtn.style.zIndex = '10000';
"#;

const SCRIPT_PART_11: &'static str = r#"                        fsBtn.style.pointerEvents = 'auto';
                        fsBtn.style.cursor = 'pointer';
                        fsBtn.style.backgroundColor = 'rgba(0, 0, 0, 0.7)';
                        fsBtn.style.color = 'white';
                        fsBtn.style.border = 'none';
                        fsBtn.style.padding = '6px 12px';
                        fsBtn.style.borderRadius = '4px';
                        fsBtn.style.fontSize = '12px';
                        fsBtn.addEventListener('click', function(e){
                            e.preventDefault(); 
                            e.stopPropagation();
                            console.log('[Proxy] Fullscreen button clicked for embed');
                            
                            // Get iframe URL (may be null for cross-origin, but we try)
                            const iframeUrl = iframe.src || iframe.getAttribute('src') || '';
                            console.log('[Proxy] Iframe URL:', iframeUrl);
                            
                            // Try direct fullscreen first (for same-origin iframes)
                            let fullscreenAttempted = false;
                            if (iframe.requestFullscreen) {
                                fullscreenAttempted = true;
                                iframe.requestFullscreen().then(function() {
                                    console.log('[Proxy] Iframe fullscreen successful');
                                }).catch(function(err) {
                                    console.log('[Proxy] Iframe fullscreen failed:', err);
                                    // Fallback: try container
                                    if (container.requestFullscreen) {
                                        container.requestFullscreen().then(function() {
                                            console.log('[Proxy] Container fullscreen successful');
                                        }).catch(function(err2) {
                                            console.log('[Proxy] Container fullscreen failed:', err2);
                                            // Final fallback: use postMessage with iframe URL
                                            console.log('[Proxy] Using postMessage fallback with URL:', iframeUrl);
                                            window.parent.postMessage({ 
                                                type: 'TOGGLE_FULLSCREEN',
                                                url: iframeUrl || undefined
                                            }, '*');
                                        });
                                    } else {
                                        console.log('[Proxy] No container fullscreen, using postMessage with URL:', iframeUrl);
"#;

const SCRIPT_PART_12: &'static str = r#"                                        window.parent.postMessage({ 
                                            type: 'TOGGLE_FULLSCREEN',
                                            url: iframeUrl || undefined
                                        }, '*');
                                    }
                                });
                            } else if (iframe.webkitRequestFullscreen) {
                                fullscreenAttempted = true;
                                iframe.webkitRequestFullscreen();
                            } else if (container.requestFullscreen) {
                                fullscreenAttempted = true;
                                container.requestFullscreen().catch(function(err) {
                                    console.log('[Proxy] Container fullscreen failed:', err);
                                    window.parent.postMessage({ 
                                        type: 'TOGGLE_FULLSCREEN',
                                        url: iframeUrl || undefined
                                    }, '*');
                                });
                            }
                            
                            // If no fullscreen API available, use postMessage
                            if (!fullscreenAttempted) {
                                console.log('[Proxy] No fullscreen API, using postMessage with URL:', iframeUrl);
                                window.parent.postMessage({ 
                                    type: 'TOGGLE_FULLSCREEN',
                                    url: iframeUrl || undefined
                                }, '*');
                            }
                        });
                        container.appendChild(fsBtn);
                    }
                    
                    // Double-click to fullscreen
                    iframe.addEventListener('dblclick', function(e){
                        e.preventDefault(); 
                        e.stopPropagation();
                        console.log('[Proxy] Double-click on embed');
                        if (iframe.requestFullscreen) {
                            iframe.requestFullscreen().catch(function() {
                                if (container.requestFullscreen) {
"#;

const SCRIPT_PART_13: &'static str = r#"                                    container.requestFullscreen().catch(function() {
                                        window.parent.postMessage({ type: 'TOGGLE_FULLSCREEN' }, '*');
                                    });
                                } else {
                                    window.parent.postMessage({ type: 'TOGGLE_FULLSCREEN' }, '*');
                                }
                            });
                        } else if (iframe.webkitRequestFullscreen) {
                            iframe.webkitRequestFullscreen();
                        } else if (container.requestFullscreen) {
                            container.requestFullscreen().catch(function() {
                                window.parent.postMessage({ type: 'TOGGLE_FULLSCREEN' }, '*');
                            });
                        } else {
                            window.parent.postMessage({ type: 'TOGGLE_FULLSCREEN' }, '*');
                        }
                    }, { capture: true });
                });
            } catch (_) {}
        }

        // Detect videos after page load - run early to prevent other scripts from scrolling
        window.addEventListener('load', function() {
            // Save initial scroll position
            const savedScrollTop = window.pageYOffset || document.documentElement.scrollTop || document.body.scrollTop || 0;
            const savedScrollLeft = window.pageXOffset || document.documentElement.scrollLeft || document.body.scrollLeft || 0;
            
            setTimeout(function(){
                detectVideos();
                installVideoOverlays();
                
                // Restore scroll position after modifications
                requestAnimationFrame(function() {
                    window.scrollTo(savedScrollLeft, savedScrollTop);
                });
            }, 100); // Run early to avoid conflicts with other scripts
        });

        // Also detect after DOM mutations (in case video is added dynamically)
        try {
"#;

const SCRIPT_PART_14: &'static str = r#"            let videoDetectTimer = null;
            const videoObserver = new MutationObserver(() => {
                if (videoDetectTimer) clearTimeout(videoDetectTimer);
                videoDetectTimer = setTimeout(function(){
                    // Save scroll position before modifications
                    const savedScrollTop = window.pageYOffset || document.documentElement.scrollTop || document.body.scrollTop || 0;
                    const savedScrollLeft = window.pageXOffset || document.documentElement.scrollLeft || document.body.scrollLeft || 0;
                    
                    detectVideos();
                    installVideoOverlays();
                    
                    // Restore scroll position
                    function restoreScroll() {
                        const currentTop = window.pageYOffset || document.documentElement.scrollTop || document.body.scrollTop || 0;
                        if (Math.abs(currentTop - savedScrollTop) > 1) {
                            window.scrollTo(savedScrollLeft, savedScrollTop);
                        }
                    }
                    restoreScroll();
                    requestAnimationFrame(restoreScroll);
                }, 500);
            });
            videoObserver.observe(document, { childList: true, subtree: true });
        } catch (e) {
            // ignore if MutationObserver not available
        }

        // Listen for restore video time message
        window.addEventListener('message', function(event) {
            if (event.data && event.data.type === 'RESTORE_VIDEO_TIME' && event.data.videoUrl) {
                try {
                    const targetUrl = event.data.videoUrl;
                    const targetTime = event.data.currentTime || 0;
                    const videos = document.querySelectorAll('video');
                    let matched = false;
                    
                    // Extract filename from target URL
                    const targetFilename = targetUrl.split('/').pop() || '';
                    
                    videos.forEach(function(video) {
"#;

const SCRIPT_PART_15: &'static str = r#"                        if (matched) return;
                        
                        let videoSrc = video.src || '';
                        // Check source elements
                        if (!videoSrc && video.querySelector('source')) {
                            videoSrc = video.querySelector('source').src || '';
                        }
                        if (!videoSrc) videoSrc = video.currentSrc || '';
                        
                        if (!videoSrc) return;
                        
                        // Match by exact URL, or by filename
                        const videoFilename = videoSrc.split('/').pop() || '';
                        const exactMatch = videoSrc === targetUrl || videoSrc.includes(targetUrl) || targetUrl.includes(videoSrc);
                        const filenameMatch = targetFilename && videoFilename && videoFilename === targetFilename;
                        
                        if (exactMatch || filenameMatch) {
                            console.log('[Proxy Injected Script] Restoring video time:', videoSrc, 'to', targetTime);
                            video.currentTime = targetTime;
                            video.play().catch(function() {});
                            matched = true;
                        }
                    });
                    
                    if (!matched) {
                        console.warn('[Proxy Injected Script] No matching video found for:', targetUrl);
                    }
                } catch (e) {
                    console.error('[Proxy Injected Script] Error restoring video time:', e);
                }
            }
        });
    })();
</script>
"#;

/// The parts of the listener script, in order.
pub closed spec fn listener_script_spec() -> Seq<char> {
    SCRIPT_PART_1@ + SCRIPT_PART_2@ + SCRIPT_PART_3@ + SCRIPT_PART_4@ + SCRIPT_PART_5@ + SCRIPT_PART_6@ + SCRIPT_PART_7@ + SCRIPT_PART_8@ + SCRIPT_PART_9@ + SCRIPT_PART_10@ + SCRIPT_PART_11@ + SCRIPT_PART_12@ + SCRIPT_PART_13@ + SCRIPT_PART_14@ + SCRIPT_PART_15@
}

/// The script appended to the body of every rewritten page. It posts the rendered DOM to
/// the parent window (`RENDERED_HTML`) once the page has loaded and settled, or when the
/// parent asks (`REQUEST_RENDERED`), scrolling first to load lazy content; it reports
/// videos (`VIDEO_DETECTED`), adds a fullscreen control to videos and known embeds and
/// relays fullscreen requests that a nested frame cannot make (`OPEN_VIDEO`,
/// `TOGGLE_FULLSCREEN`, `TWITTER_FULLSCREEN_REQUEST`), and resumes playback on
/// `RESTORE_VIDEO_TIME`.
pub fn listener_script() -> (r: String)
    ensures
        r@ == listener_script_spec(),
{
    let mut r = String::new();
    push_str(&mut r, SCRIPT_PART_1);
    push_str(&mut r, SCRIPT_PART_2);
    push_str(&mut r, SCRIPT_PART_3);
    push_str(&mut r, SCRIPT_PART_4);
    push_str(&mut r, SCRIPT_PART_5);
    push_str(&mut r, SCRIPT_PART_6);
    push_str(&mut r, SCRIPT_PART_7);
    push_str(&mut r, SCRIPT_PART_8);
    push_str(&mut r, SCRIPT_PART_9);
    push_str(&mut r, SCRIPT_PART_10);
    push_str(&mut r, SCRIPT_PART_11);
    push_str(&mut r, SCRIPT_PART_12);
    push_str(&mut r, SCRIPT_PART_13);
    push_str(&mut r, SCRIPT_PART_14);
    push_str(&mut r, SCRIPT_PART_15);
    assert(r@ =~= listener_script_spec());
    r
}

} // verus!
